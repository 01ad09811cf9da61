//! Verified core of a WebP-to-JPEG conversion service.
//!
//! The library holds the decisions the service makes: which paths out of a
//! filesystem event are WebP files, what the output path of a conversion is,
//! whether and where a landscape image is cropped to a square, and the
//! byte-level conversion pipeline itself. Reading the watched directory,
//! writing and deleting files, and the event subscription stay outside.

pub mod config;
pub mod convert;
pub mod crop;
pub mod events;
pub mod paths;

//! Immutable service configuration, constructed once at startup and passed
//! explicitly to the dispatch and conversion logic.

use vstd::prelude::*;

verus! {

/// What the service is told at startup: the directory to watch, as the
/// bytes of its path, and whether landscape images are cropped to a square.
pub struct Config {
    /// Bytes of the path of the watched directory.
    pub watch_dir: Vec<u8>,
    /// Whether landscape images are cropped to a centered square.
    pub crop: bool,
}

impl Config {
    /// Build the configuration; it is never changed afterwards.
    pub fn new(watch_dir: Vec<u8>, crop: bool) -> (c: Config)
        ensures
            c.watch_dir@ == watch_dir@,
            c.crop == crop,
    {
        Config { watch_dir, crop }
    }
}

} // verus!

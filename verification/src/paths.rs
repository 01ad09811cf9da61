//! Path logic on POSIX-style paths held as bytes: finding the file
//! extension, matching it case-insensitively against "webp", and deriving
//! the output path by replacing the extension with "jpg".
//!
//! The extension of a path is what follows the last dot of its file name
//! (the bytes after the last slash), unless that dot is the file name's
//! first byte: a hidden file such as ".webp" has no extension.

use vstd::prelude::*;

verus! {

/// `i` indexes the dot that introduces the extension of `p`: a dot inside
/// the file name, with no further dot after it, and not the file name's
/// first byte.
pub open spec fn is_ext_dot(p: Seq<u8>, i: int) -> bool {
    &&& 0 <= i < p.len()
    &&& p[i] == 46u8
    &&& (forall|j: int| i < j < p.len() ==> p[j] != 46u8 && p[j] != 47u8)
    &&& i > 0
    &&& p[i - 1] != 47u8
}

/// Whether `p` has a file extension.
pub open spec fn has_extension(p: Seq<u8>) -> bool {
    exists|i: int| is_ext_dot(p, i)
}

/// Index of the dot that introduces the extension; meaningful only when
/// `has_extension(p)` holds.
pub open spec fn ext_dot(p: Seq<u8>) -> int {
    choose|i: int| is_ext_dot(p, i)
}

/// The extension of `p`, without the dot; meaningful only when
/// `has_extension(p)` holds.
pub open spec fn extension(p: Seq<u8>) -> Seq<u8> {
    p.subrange(ext_dot(p) + 1, p.len() as int)
}

/// ASCII lower-casing of one byte.
pub open spec fn lower(c: u8) -> u8 {
    if 65 <= c <= 90 {
        (c + 32) as u8
    } else {
        c
    }
}

/// Whether `e` is the extension "webp", compared case-insensitively.
pub open spec fn is_webp_ext(e: Seq<u8>) -> bool {
    &&& e.len() == 4
    &&& lower(e[0]) == 119u8
    &&& lower(e[1]) == 101u8
    &&& lower(e[2]) == 98u8
    &&& lower(e[3]) == 112u8
}

/// Whether `p` names a WebP file: it has an extension and that extension
/// is "webp" in any casing.
pub open spec fn is_webp_path(p: Seq<u8>) -> bool {
    has_extension(p) && is_webp_ext(extension(p))
}

/// The bytes of the replacement extension "jpg".
pub open spec fn jpg_ext() -> Seq<u8> {
    seq![106u8, 112u8, 103u8]
}

/// The output path of a conversion: the input path with its extension
/// replaced by "jpg"; a path without an extension gets ".jpg" appended.
pub open spec fn jpg_path(p: Seq<u8>) -> Seq<u8> {
    if has_extension(p) {
        p.subrange(0, ext_dot(p) + 1) + jpg_ext()
    } else {
        p + seq![46u8] + jpg_ext()
    }
}

/// At most one index can carry the extension dot.
pub proof fn lemma_ext_dot_unique(p: Seq<u8>, i1: int, i2: int)
    requires
        is_ext_dot(p, i1),
        is_ext_dot(p, i2),
    ensures
        i1 == i2,
{
    if i1 < i2 {
        assert(p[i2] != 46u8);
    }
    if i2 < i1 {
        assert(p[i1] != 46u8);
    }
}

/// ASCII lower-casing of one byte, executable form.
fn lower_byte(c: u8) -> (r: u8)
    ensures
        r == lower(c),
{
    if 65 <= c && c <= 90 {
        c + 32
    } else {
        c
    }
}

/// Find the dot that introduces the extension of `p`, scanning the file
/// name from the end; `None` exactly when `p` has no extension.
pub fn find_ext_dot(p: &Vec<u8>) -> (r: Option<usize>)
    ensures
        r matches Some(i) ==> is_ext_dot(p@, i as int),
        r is None ==> !has_extension(p@),
{
    let mut k: usize = p.len();
    while k > 0
        invariant
            k <= p@.len(),
            forall|j: int| k <= j < p@.len() ==> p@[j] != 46u8 && p@[j] != 47u8,
        decreases k,
    {
        let c = p[k - 1];
        if c == 47u8 {
            assert forall|i: int| !is_ext_dot(p@, i) by {
                if is_ext_dot(p@, i) {
                    if i < k - 1 {
                        assert(p@[k - 1] != 47u8);
                    } else {
                        assert(p@[i] != 46u8);
                    }
                }
            }
            return None;
        }
        if c == 46u8 {
            if k >= 2 && p[k - 2] != 47u8 {
                return Some(k - 1);
            } else {
                assert forall|i: int| !is_ext_dot(p@, i) by {
                    if is_ext_dot(p@, i) {
                        if i < k - 1 {
                            assert(p@[k - 1] != 46u8);
                        }
                    }
                }
                return None;
            }
        }
        k = k - 1;
    }
    assert forall|i: int| !is_ext_dot(p@, i) by {
        if is_ext_dot(p@, i) {
            assert(p@[i] != 46u8);
        }
    }
    None
}

/// Whether the path names a WebP file: its extension, if any, equals
/// "webp" case-insensitively.
pub fn is_webp(p: &Vec<u8>) -> (r: bool)
    ensures
        r == is_webp_path(p@),
{
    match find_ext_dot(p) {
        None => false,
        Some(i) => {
            proof {
                assert(has_extension(p@));
                lemma_ext_dot_unique(p@, i as int, ext_dot(p@));
            }
            if p.len() - i != 5 {
                assert(extension(p@).len() != 4);
                false
            } else {
                let r = lower_byte(p[i + 1]) == 119u8 && lower_byte(p[i + 2]) == 101u8
                    && lower_byte(p[i + 3]) == 98u8 && lower_byte(p[i + 4]) == 112u8;
                proof {
                    assert(extension(p@).len() == 4);
                    assert(extension(p@)[0] == p@[i + 1]);
                    assert(extension(p@)[1] == p@[i + 2]);
                    assert(extension(p@)[2] == p@[i + 3]);
                    assert(extension(p@)[3] == p@[i + 4]);
                }
                r
            }
        },
    }
}

/// Derive the output path: the input path with its extension replaced by
/// "jpg", lower-case regardless of how the original extension was cased;
/// a path without an extension gets ".jpg" appended.
pub fn jpg_output(p: &Vec<u8>) -> (r: Vec<u8>)
    ensures
        r@ == jpg_path(p@),
{
    let dot = find_ext_dot(p);
    let end: usize = match dot {
        Some(i) => {
            let n = p.len();
            assert(i < n);
            i + 1
        },
        None => p.len(),
    };
    let mut out: Vec<u8> = Vec::new();
    let mut k: usize = 0;
    while k < end
        invariant
            end <= p@.len(),
            k <= end,
            out@ == p@.subrange(0, k as int),
        decreases end - k,
    {
        out.push(p[k]);
        assert(out@ =~= p@.subrange(0, k as int + 1));
        k = k + 1;
    }
    match dot {
        Some(i) => {
            proof {
                assert(has_extension(p@));
                lemma_ext_dot_unique(p@, i as int, ext_dot(p@));
            }
        },
        None => {
            out.push(46u8);
        },
    }
    out.push(106u8);
    out.push(112u8);
    out.push(103u8);
    assert(out@ =~= jpg_path(p@));
    out
}

/// Law: when `p` has an extension introduced by the dot at `i`, the output
/// path is exactly the input up to and including that dot, followed by
/// "jpg".
pub proof fn lemma_jpg_path_replaces_extension(p: Seq<u8>, i: int)
    requires
        is_ext_dot(p, i),
    ensures
        jpg_path(p) == p.subrange(0, i + 1) + jpg_ext(),
{
    lemma_ext_dot_unique(p, i, ext_dot(p));
}

/// Two paths of equal length whose bytes agree up to ASCII case.
pub open spec fn same_up_to_case(p: Seq<u8>, q: Seq<u8>) -> bool {
    &&& p.len() == q.len()
    &&& forall|j: int| 0 <= j < p.len() ==> lower(p[j]) == lower(q[j])
}

/// Lower-casing moves a byte only within the ASCII letters, so agreement
/// up to case pins every non-letter byte, dots and slashes included.
proof fn lemma_same_case_ext_dot(p: Seq<u8>, q: Seq<u8>, i: int)
    requires
        same_up_to_case(p, q),
        is_ext_dot(p, i),
    ensures
        is_ext_dot(q, i),
{
    assert(lower(q[i]) == lower(p[i]));
    assert(q[i] == 46u8);
    assert(lower(q[i - 1]) == lower(p[i - 1]));
    assert(q[i - 1] != 47u8);
    assert forall|j: int| i < j < q.len() implies q[j] != 46u8 && q[j] != 47u8 by {
        assert(lower(q[j]) == lower(p[j]));
        assert(p[j] != 46u8 && p[j] != 47u8);
    }
}

/// Law: whether a path names a WebP file does not depend on the casing of
/// its bytes: "webp", "WebP" and "WEBP" all match alike.
pub proof fn lemma_webp_match_ignores_case(p: Seq<u8>, q: Seq<u8>)
    requires
        same_up_to_case(p, q),
    ensures
        is_webp_path(p) == is_webp_path(q),
{
    if has_extension(p) {
        lemma_same_case_ext_dot(p, q, ext_dot(p));
        lemma_ext_dot_unique(q, ext_dot(p), ext_dot(q));
        assert(ext_dot(q) == ext_dot(p));
        let i = ext_dot(p);
        assert forall|k: int| 0 <= k < extension(p).len() implies lower(extension(p)[k])
            == lower(extension(q)[k]) by {
            assert(extension(p)[k] == p[i + 1 + k]);
            assert(extension(q)[k] == q[i + 1 + k]);
        }
    }
    if has_extension(q) {
        lemma_same_case_ext_dot(q, p, ext_dot(q));
    }
}

} // verus!

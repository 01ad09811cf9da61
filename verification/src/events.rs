//! Dispatch decisions: which paths out of a filesystem notification are
//! handed to the converter. Only creation and modification events are
//! considered, and of their paths only those naming WebP files.

use vstd::prelude::*;
use crate::paths::is_webp;
use crate::paths::is_webp_path;

verus! {

/// Kind of a filesystem notification, as the dispatch logic reads it:
/// a file was created, a file was modified, or anything else.
#[derive(Clone, Copy, Debug, PartialEq, Eq, Structural)]
pub enum EventKind {
    Create,
    Modify,
    Other,
}

/// One filesystem notification: its kind and the affected paths, each as
/// the bytes of a POSIX-style path.
pub struct WatchEvent {
    pub kind: EventKind,
    pub paths: Vec<Vec<u8>>,
}

/// Whether an event kind triggers conversion at all: only creations and
/// modifications do.
pub open spec fn is_relevant_kind(k: EventKind) -> bool {
    k is Create || k is Modify
}

/// The subsequence of `paths` naming WebP files, in arrival order.
pub open spec fn webp_seqs(paths: Seq<Seq<u8>>) -> Seq<Seq<u8>> {
    paths.filter(|q: Seq<u8>| is_webp_path(q))
}

/// Appending one path to the input appends it to the selection exactly
/// when it names a WebP file.
proof fn lemma_webp_seqs_push(s: Seq<Seq<u8>>, q: Seq<u8>)
    ensures
        is_webp_path(q) ==> webp_seqs(s.push(q)) == webp_seqs(s).push(q),
        !is_webp_path(q) ==> webp_seqs(s.push(q)) == webp_seqs(s),
{
    reveal(Seq::filter);
    assert(s.push(q).drop_last() =~= s);
    assert(s.push(q).last() == q);
}

/// Every selected path names a WebP file.
pub proof fn lemma_webp_seqs_sound(paths: Seq<Seq<u8>>)
    ensures
        forall|i: int| 0 <= i < webp_seqs(paths).len() ==> is_webp_path(
            #[trigger] webp_seqs(paths)[i],
        ),
{
    broadcast use vstd::seq_lib::group_filter_ensures;

}

/// Law: a path that does not name a WebP file is never selected for
/// conversion, whatever the event's other paths are.
pub proof fn lemma_non_webp_never_selected(paths: Seq<Seq<u8>>, q: Seq<u8>)
    requires
        !is_webp_path(q),
    ensures
        forall|i: int| 0 <= i < webp_seqs(paths).len() ==> #[trigger] webp_seqs(paths)[i] != q,
{
    lemma_webp_seqs_sound(paths);
}

/// Select the paths of one event that are handed to the converter: none
/// unless the event is a creation or modification, and of those paths
/// exactly the ones naming WebP files, in arrival order.
pub fn paths_to_convert(event: &WatchEvent) -> (r: Vec<Vec<u8>>)
    ensures
        is_relevant_kind(event.kind) ==> r.deep_view() == webp_seqs(event.paths.deep_view()),
        !is_relevant_kind(event.kind) ==> r.deep_view() == Seq::<Seq<u8>>::empty(),
        forall|i: int| 0 <= i < r@.len() ==> is_webp_path(#[trigger] r@[i]@),
{
    let mut out: Vec<Vec<u8>> = Vec::new();
    assert(out.deep_view() =~= Seq::<Seq<u8>>::empty());
    let relevant = match event.kind {
        EventKind::Create => true,
        EventKind::Modify => true,
        EventKind::Other => false,
    };
    if !relevant {
        return out;
    }
    let ghost dv: Seq<Seq<u8>> = event.paths.deep_view();
    let n = event.paths.len();
    let mut k: usize = 0;
    while k < n
        invariant
            n == event.paths@.len(),
            dv == event.paths.deep_view(),
            k <= n,
            out.deep_view() == webp_seqs(dv.subrange(0, k as int)),
            forall|i: int| 0 <= i < out@.len() ==> is_webp_path(#[trigger] out@[i]@),
        decreases n - k,
    {
        let q: &Vec<u8> = &event.paths[k];
        let ghost prev: Seq<Seq<u8>> = out.deep_view();
        proof {
            assert(dv.subrange(0, k as int + 1) =~= dv.subrange(0, k as int).push(dv[k as int]));
            lemma_webp_seqs_push(dv.subrange(0, k as int), dv[k as int]);
            assert(dv[k as int] =~= q@);
        }
        if is_webp(q) {
            let c = q.clone();
            proof {
                assert forall|i: int| 0 <= i < q@.len() implies c@[i] == q@[i] by {
                    assert(cloned::<u8>(q@[i], c@[i]));
                }
                assert(c@ =~= q@);
            }
            out.push(c);
            proof {
                assert(out.deep_view() =~= prev.push(dv[k as int]));
            }
        }
        k = k + 1;
    }
    proof {
        assert(dv.subrange(0, n as int) =~= dv);
    }
    out
}

} // verus!

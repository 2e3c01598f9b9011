use vstd::prelude::*;

verus! {

/// The owners to terminate, given the pixmap ids found under the two
/// convention atoms: each id that is present, once.
pub open spec fn victims(root: Option<u32>, eset: Option<u32>) -> Seq<u32> {
    match (root, eset) {
        (Some(x), Some(e)) => if x == e { seq![x] } else { seq![x, e] },
        (Some(x), None) => seq![x],
        (None, Some(e)) => seq![e],
        (None, None) => seq![],
    }
}

/// Lists the resources whose clients must be killed before a new pixmap is
/// published, never naming one twice.
pub fn eviction_targets(root: Option<u32>, eset: Option<u32>) -> (r: Vec<u32>)
    ensures
        r@ == victims(root, eset),
{
    let mut r: Vec<u32> = Vec::new();
    match (root, eset) {
        (Some(x), Some(e)) => {
            r.push(x);
            if x != e {
                r.push(e);
            }
        },
        (Some(x), None) => r.push(x),
        (None, Some(e)) => r.push(e),
        (None, None) => {},
    }
    assert(r@ =~= victims(root, eset));
    r
}

/// Eviction never terminates the same owner twice, terminates every owner
/// that was found, and nothing else. Its number of terminations is 0 when
/// neither atom names a pixmap, 1 when one does or both name the same one,
/// and 2 when they name two different ones.
pub proof fn lemma_eviction_counts(root: Option<u32>, eset: Option<u32>)
    ensures
        victims(root, eset).no_duplicates(),
        forall|id: u32| #[trigger] victims(root, eset).contains(id) <==> (root == Some(id) || eset == Some(id)),
        victims(root, eset).len() == (match (root, eset) {
            (None, None) => 0int,
            (Some(x), Some(e)) => if x == e { 1int } else { 2int },
            _ => 1int,
        }),
{
    let v = victims(root, eset);
    assert forall|id: u32| #[trigger] v.contains(id) <==> (root == Some(id) || eset == Some(id)) by {
        if root == Some(id) || eset == Some(id) {
            if root == Some(id) {
                assert(v[0] == id);
            } else if root is Some && root != eset {
                assert(v[1] == id);
            } else {
                assert(v[0] == id);
            }
        }
    }
}

} // verus!

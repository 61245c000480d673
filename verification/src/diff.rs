//! Reconciling a freshly listed source against the current target: albums
//! whose name already exists on the target side get their `selected` flag
//! flipped, pre-marking what is already present elsewhere.

use vstd::prelude::*;

use crate::album::Album;
use crate::model;

verus! {

/// Whether some album in `t` is called `n`; name matching is exact,
/// case-sensitive equality.
pub fn contains_name(t: &Vec<Album>, n: &String) -> (r: bool)
    ensures
        r == model::has_name(t.deep_view(), n@),
{
    let mut j: usize = 0;
    while j < t.len()
        invariant
            j <= t.len(),
            forall|k: int| 0 <= k < j ==> t.deep_view()[k].name != n@,
        decreases t.len() - j,
    {
        if t[j].name == *n {
            assert(t.deep_view()[j as int].name == n@);
            return true;
        }
        j += 1;
    }
    false
}

/// Reconciles `source_albums` against `target_albums`: if either list is
/// empty the source is returned unchanged; otherwise every source album whose
/// name occurs on the target side has its `selected` flag flipped, and all
/// others pass through unchanged. Running this twice flips twice: it is
/// deliberately not idempotent.
pub fn diff_on_albums_list(source_albums: Vec<Album>, target_albums: Vec<Album>) -> (r: Vec<
    Album,
>)
    ensures
        r.deep_view() == model::reconcile(source_albums.deep_view(), target_albums.deep_view()),
{
    if source_albums.len() == 0 {
        return source_albums;
    }
    if target_albums.len() == 0 {
        return source_albums;
    }
    let ghost s = source_albums.deep_view();
    let ghost t = target_albums.deep_view();
    let mut out: Vec<Album> = Vec::new();
    let mut i: usize = 0;
    while i < source_albums.len()
        invariant
            i <= source_albums.len(),
            s == source_albums.deep_view(),
            t == target_albums.deep_view(),
            s.len() == source_albums.len(),
            out.deep_view().len() == i,
            forall|k: int| 0 <= k < i ==> out.deep_view()[k] == model::flip_against(s[k], t),
        decreases source_albums.len() - i,
    {
        let a = &source_albums[i];
        let selected = if contains_name(&target_albums, &a.name) {
            !a.selected
        } else {
            a.selected
        };
        let ghost out0 = out.deep_view();
        out.push(Album { name: a.name.clone(), path: a.path.clone(), selected });
        proof {
            assert forall|k: int| 0 <= k <= i implies out.deep_view()[k] == model::flip_against(
                s[k],
                t,
            ) by {
                if k < i {
                    assert(out.deep_view()[k] == out0[k]);
                } else {
                    assert(out.deep_view()[k] =~= model::flip_against(s[k], t));
                }
            }
        }
        i += 1;
    }
    proof {
        assert(out.deep_view() =~= model::reconcile(s, t));
    }
    out
}

} // verus!

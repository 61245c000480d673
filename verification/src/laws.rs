//! The stated laws of the pipeline, proved once and for all: what listing
//! yields, what reconciling may and may not change, that toggling is
//! self-inverse and touches at most one album, and which albums a plan may
//! name.

use vstd::prelude::*;

use crate::album::{AlbumView, RawEntryView};
use crate::model::{albums_of, has_name, plan_of, reconcile, to_add_of, to_remove_of, toggle};

verus! {

/// Listing yields exactly one album per entry: same name and path, in the
/// same order, and none selected.
pub proof fn lemma_albums_of_shape(es: Seq<RawEntryView>)
    ensures
        albums_of(es).len() == es.len(),
        forall|i: int|
            0 <= i < es.len() ==> (#[trigger] albums_of(es)[i]).name == es[i].name && albums_of(
                es,
            )[i].path == es[i].path && !albums_of(es)[i].selected,
{
}

/// Reconciling with an empty side is the identity: an empty source stays
/// empty, and against an empty target the source passes through unchanged.
pub proof fn lemma_reconcile_empty(s: Seq<AlbumView>, t: Seq<AlbumView>)
    ensures
        reconcile(Seq::<AlbumView>::empty(), t) == Seq::<AlbumView>::empty(),
        reconcile(s, Seq::<AlbumView>::empty()) == s,
{
}

/// Reconciling preserves the length and every album's name and path; only
/// `selected` may change, and it changes exactly for the albums whose name
/// occurs on the target side.
pub proof fn lemma_reconcile_preserves(s: Seq<AlbumView>, t: Seq<AlbumView>)
    ensures
        reconcile(s, t).len() == s.len(),
        forall|i: int|
            0 <= i < s.len() ==> (#[trigger] reconcile(s, t)[i]).name == s[i].name && reconcile(
                s,
                t,
            )[i].path == s[i].path,
        forall|i: int|
            0 <= i < s.len() && !has_name(t, s[i].name) ==> #[trigger] reconcile(s, t)[i] == s[i],
        forall|i: int|
            0 <= i < s.len() && has_name(t, s[i].name) ==> (#[trigger] reconcile(s, t)[i]).selected
                == !s[i].selected,
{
    assert forall|i: int|
        0 <= i < s.len() && !has_name(t, s[i].name) implies #[trigger] reconcile(s, t)[i]
        == s[i] by {
        if s.len() != 0 && t.len() != 0 {
            assert(reconcile(s, t)[i] =~= s[i]);
        }
    }
}

/// Reconciling is deliberately not idempotent: running it twice against the
/// same target flips every pre-marked flag back, restoring the source list
/// exactly.
pub proof fn lemma_reconcile_twice_restores(s: Seq<AlbumView>, t: Seq<AlbumView>)
    ensures
        reconcile(reconcile(s, t), t) == s,
{
    if s.len() != 0 && t.len() != 0 {
        assert forall|i: int| 0 <= i < s.len() implies reconcile(reconcile(s, t), t)[i]
            == s[i] by {
            assert(reconcile(s, t)[i].name == s[i].name);
            assert(reconcile(reconcile(s, t), t)[i] =~= s[i]);
        }
        assert(reconcile(reconcile(s, t), t) =~= s);
    }
}

/// Toggling a name changes at most that one album's `selected` flag: length,
/// names and paths are untouched, albums with another name pass through
/// unchanged, and under unique names at most one album changes at all.
pub proof fn lemma_toggle_at_most_one(s: Seq<AlbumView>, n: Seq<char>)
    requires
        forall|i: int, j: int|
            0 <= i < s.len() && 0 <= j < s.len() && #[trigger] s[i].name == #[trigger] s[j].name
                ==> i == j,
    ensures
        toggle(s, n).len() == s.len(),
        forall|i: int|
            0 <= i < s.len() ==> (#[trigger] toggle(s, n)[i]).name == s[i].name && toggle(
                s,
                n,
            )[i].path == s[i].path,
        forall|i: int| 0 <= i < s.len() && s[i].name != n ==> #[trigger] toggle(s, n)[i] == s[i],
        forall|i: int, j: int|
            0 <= i < s.len() && 0 <= j < s.len() && #[trigger] toggle(s, n)[i] != s[i]
                && #[trigger] toggle(s, n)[j] != s[j] ==> i == j,
{
    assert forall|i: int| 0 <= i < s.len() && s[i].name != n implies #[trigger] toggle(s, n)[i]
        == s[i] by {
        assert(toggle(s, n)[i] =~= s[i]);
    }
    assert forall|i: int, j: int|
        0 <= i < s.len() && 0 <= j < s.len() && #[trigger] toggle(s, n)[i] != s[i]
            && #[trigger] toggle(s, n)[j] != s[j] implies i == j by {
        assert(s[i].name == n);
        assert(s[j].name == n);
    }
}

/// Toggling the same name twice restores the list exactly: every flip is
/// undone and nothing else ever moved.
pub proof fn lemma_toggle_self_inverse(s: Seq<AlbumView>, n: Seq<char>)
    ensures
        toggle(toggle(s, n), n) == s,
{
    assert forall|i: int| 0 <= i < s.len() implies toggle(toggle(s, n), n)[i] == s[i] by {
        assert(toggle(toggle(s, n), n)[i] =~= s[i]);
    }
    assert(toggle(toggle(s, n), n) =~= s);
}

/// A plan names only what it should: every path in `to_add` is the path of
/// a source album that is selected and whose name is absent from the
/// target, and conversely every such album's path is in `to_add`; every
/// path in `to_remove` is the path of a source album that is not selected
/// although its name is present on the target, and conversely. In
/// particular `to_add` holds no album whose name is on the target, and
/// `to_remove` only albums whose name is.
pub proof fn lemma_plan_names(s: Seq<AlbumView>, t: Seq<AlbumView>)
    ensures
        forall|p: Seq<char>|
            #[trigger] plan_of(s, t).to_add.contains(p) ==> exists|i: int|
                0 <= i < s.len() && #[trigger] s[i].path == p && s[i].selected && !has_name(
                    t,
                    s[i].name,
                ),
        forall|p: Seq<char>|
            #[trigger] plan_of(s, t).to_remove.contains(p) ==> exists|i: int|
                0 <= i < s.len() && #[trigger] s[i].path == p && !s[i].selected && has_name(
                    t,
                    s[i].name,
                ),
        forall|i: int|
            0 <= i < s.len() && s[i].selected && !has_name(t, s[i].name) ==> plan_of(
                s,
                t,
            ).to_add.contains(#[trigger] s[i].path),
        forall|i: int|
            0 <= i < s.len() && !s[i].selected && has_name(t, s[i].name) ==> plan_of(
                s,
                t,
            ).to_remove.contains(#[trigger] s[i].path),
{
    lemma_to_add_names(s, t);
    lemma_to_remove_names(s, t);
}

proof fn lemma_to_add_names(s: Seq<AlbumView>, t: Seq<AlbumView>)
    ensures
        forall|p: Seq<char>|
            #[trigger] to_add_of(s, t).contains(p) ==> exists|i: int|
                0 <= i < s.len() && #[trigger] s[i].path == p && s[i].selected && !has_name(
                    t,
                    s[i].name,
                ),
        forall|i: int|
            0 <= i < s.len() && s[i].selected && !has_name(t, s[i].name) ==> to_add_of(
                s,
                t,
            ).contains(#[trigger] s[i].path),
    decreases s.len(),
{
    if s.len() > 0 {
        let pre = s.drop_last();
        lemma_to_add_names(pre, t);
        let rest = to_add_of(pre, t);
        let last = s.last();
        assert forall|p: Seq<char>| #[trigger] to_add_of(s, t).contains(p) implies exists|i: int|
            0 <= i < s.len() && #[trigger] s[i].path == p && s[i].selected && !has_name(
                t,
                s[i].name,
            ) by {
            let taken = if last.selected && !has_name(t, last.name) {
                rest.push(last.path)
            } else {
                rest
            };
            assert(to_add_of(s, t) == taken);
            let k = choose|k: int| 0 <= k < taken.len() && taken[k] == p;
            if k < rest.len() {
                assert(rest.contains(p));
                let i = choose|i: int|
                    0 <= i < pre.len() && #[trigger] pre[i].path == p && pre[i].selected
                        && !has_name(t, pre[i].name);
                assert(s[i] == pre[i]);
            } else {
                assert(s[s.len() - 1] == last);
            }
        }
        assert forall|i: int|
            0 <= i < s.len() && s[i].selected && !has_name(t, s[i].name) implies to_add_of(
            s,
            t,
        ).contains(#[trigger] s[i].path) by {
            if i < s.len() - 1 {
                assert(pre[i] == s[i]);
                assert(rest.contains(s[i].path));
                let k = choose|k: int| 0 <= k < rest.len() && rest[k] == s[i].path;
                assert(to_add_of(s, t)[k] == s[i].path);
            } else {
                assert(to_add_of(s, t).last() == last.path);
            }
        }
    }
}

proof fn lemma_to_remove_names(s: Seq<AlbumView>, t: Seq<AlbumView>)
    ensures
        forall|p: Seq<char>|
            #[trigger] to_remove_of(s, t).contains(p) ==> exists|i: int|
                0 <= i < s.len() && #[trigger] s[i].path == p && !s[i].selected && has_name(
                    t,
                    s[i].name,
                ),
        forall|i: int|
            0 <= i < s.len() && !s[i].selected && has_name(t, s[i].name) ==> to_remove_of(
                s,
                t,
            ).contains(#[trigger] s[i].path),
    decreases s.len(),
{
    if s.len() > 0 {
        let pre = s.drop_last();
        lemma_to_remove_names(pre, t);
        let rest = to_remove_of(pre, t);
        let last = s.last();
        assert forall|p: Seq<char>| #[trigger] to_remove_of(s, t).contains(p) implies exists|
            i: int,
        |
            0 <= i < s.len() && #[trigger] s[i].path == p && !s[i].selected && has_name(
                t,
                s[i].name,
            ) by {
            let taken = if !last.selected && has_name(t, last.name) {
                rest.push(last.path)
            } else {
                rest
            };
            assert(to_remove_of(s, t) == taken);
            let k = choose|k: int| 0 <= k < taken.len() && taken[k] == p;
            if k < rest.len() {
                assert(rest.contains(p));
                let i = choose|i: int|
                    0 <= i < pre.len() && #[trigger] pre[i].path == p && !pre[i].selected
                        && has_name(t, pre[i].name);
                assert(s[i] == pre[i]);
            } else {
                assert(s[s.len() - 1] == last);
            }
        }
        assert forall|i: int|
            0 <= i < s.len() && !s[i].selected && has_name(t, s[i].name) implies to_remove_of(
            s,
            t,
        ).contains(#[trigger] s[i].path) by {
            if i < s.len() - 1 {
                assert(pre[i] == s[i]);
                assert(rest.contains(s[i].path));
                let k = choose|k: int| 0 <= k < rest.len() && rest[k] == s[i].path;
                assert(to_remove_of(s, t)[k] == s[i].path);
            } else {
                assert(to_remove_of(s, t).last() == last.path);
            }
        }
    }
}

} // verus!

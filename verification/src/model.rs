//! The mathematical model of the pipeline: what listing produces, what
//! reconciling and toggling do to a source list, and which albums a sync
//! plan names. All executable functions are specified against these.

use vstd::prelude::*;

use crate::album::{AlbumView, RawEntryView};

verus! {

/// Whether some album in `t` carries the name `n`. Identity of an album is
/// its name alone, never its path.
pub open spec fn has_name(t: Seq<AlbumView>, n: Seq<char>) -> bool {
    exists|j: int| 0 <= j < t.len() && t[j].name == n
}

/// The album a freshly listed entry becomes: same name and path, not selected.
pub open spec fn album_of_entry(e: RawEntryView) -> AlbumView {
    AlbumView { name: e.name, path: e.path, selected: false }
}

/// The album list a successful enumeration produces: one album per entry,
/// in enumeration order, none selected.
pub open spec fn albums_of(es: Seq<RawEntryView>) -> Seq<AlbumView> {
    es.map_values(|e: RawEntryView| album_of_entry(e))
}

/// One album after reconciling against target list `t`: its `selected` flag
/// is flipped exactly when its name occurs in `t`.
pub open spec fn flip_against(a: AlbumView, t: Seq<AlbumView>) -> AlbumView {
    AlbumView { selected: if has_name(t, a.name) { !a.selected } else { a.selected }, ..a }
}

/// Reconciling a source list against a target list: with an empty side the
/// source passes through unchanged; otherwise every source album whose name
/// occurs in the target has its `selected` flag flipped. Note that this is
/// deliberately not idempotent: reconciling twice flips twice.
pub open spec fn reconcile(s: Seq<AlbumView>, t: Seq<AlbumView>) -> Seq<AlbumView> {
    if s.len() == 0 || t.len() == 0 {
        s
    } else {
        s.map_values(|a: AlbumView| flip_against(a, t))
    }
}

/// Toggling one album by name: every album called `n` (at most one, when
/// names are unique) has its `selected` flag inverted; a name that matches
/// nothing changes nothing.
pub open spec fn toggle(s: Seq<AlbumView>, n: Seq<char>) -> Seq<AlbumView> {
    s.map_values(
        |a: AlbumView| if a.name == n { AlbumView { selected: !a.selected, ..a } } else { a },
    )
}

/// The paths to copy to the target: those of source albums that are selected
/// and whose name is absent from the target, in source order.
pub open spec fn to_add_of(s: Seq<AlbumView>, t: Seq<AlbumView>) -> Seq<Seq<char>>
    decreases s.len(),
{
    if s.len() == 0 {
        Seq::empty()
    } else {
        let rest = to_add_of(s.drop_last(), t);
        if s.last().selected && !has_name(t, s.last().name) {
            rest.push(s.last().path)
        } else {
            rest
        }
    }
}

/// The paths that are candidates for removal from the target: those of
/// source albums that are not selected although their name is present on the
/// target, in source order. They are computed, never acted on.
pub open spec fn to_remove_of(s: Seq<AlbumView>, t: Seq<AlbumView>) -> Seq<Seq<char>>
    decreases s.len(),
{
    if s.len() == 0 {
        Seq::empty()
    } else {
        let rest = to_remove_of(s.drop_last(), t);
        if !s.last().selected && has_name(t, s.last().name) {
            rest.push(s.last().path)
        } else {
            rest
        }
    }
}

/// Mathematical view of a sync plan: the paths to add and the removal
/// candidates.
#[verifier::ext_equal]
pub ghost struct SyncPlanView {
    pub to_add: Seq<Seq<char>>,
    pub to_remove: Seq<Seq<char>>,
}

/// The sync plan derived from a source and a target list.
pub open spec fn plan_of(s: Seq<AlbumView>, t: Seq<AlbumView>) -> SyncPlanView {
    SyncPlanView { to_add: to_add_of(s, t), to_remove: to_remove_of(s, t) }
}

} // verus!

//! Deriving a sync plan from the current source and target lists, and
//! judging the outcome once the host has run the copies. The plan is always
//! recomputed fresh; nothing of it is stored.

use vstd::prelude::*;

use crate::album::Album;
use crate::diff::contains_name;
use crate::error::ErrorKind;
use crate::model;
use crate::model::SyncPlanView;

verus! {

/// What a sync would do: the paths to copy into the target root, and the
/// paths that are candidates for removal from the target side. Removal
/// candidates are only ever computed, never deleted: that is a deliberate
/// non-goal, not an oversight.
#[derive(Debug)]
pub struct SyncPlan {
    pub to_add: Vec<String>,
    pub to_remove: Vec<String>,
}

impl View for SyncPlan {
    type V = SyncPlanView;

    open spec fn view(&self) -> SyncPlanView {
        SyncPlanView { to_add: self.to_add.deep_view(), to_remove: self.to_remove.deep_view() }
    }
}

impl DeepView for SyncPlan {
    type V = SyncPlanView;

    open spec fn deep_view(&self) -> SyncPlanView {
        self@
    }
}

/// Computes the sync plan: `to_add` holds the path of every source album
/// that is selected and whose name is absent from the target; `to_remove`
/// the path of every source album that is not selected although its name is
/// present on the target. Both keep source order.
pub fn compute_plan(source_albums: &Vec<Album>, target_albums: &Vec<Album>) -> (r: SyncPlan)
    ensures
        r@ == model::plan_of(source_albums.deep_view(), target_albums.deep_view()),
{
    let ghost s = source_albums.deep_view();
    let ghost t = target_albums.deep_view();
    let mut to_add: Vec<String> = Vec::new();
    let mut to_remove: Vec<String> = Vec::new();
    let mut i: usize = 0;
    while i < source_albums.len()
        invariant
            i <= source_albums.len(),
            s == source_albums.deep_view(),
            t == target_albums.deep_view(),
            s.len() == source_albums.len(),
            to_add.deep_view() == model::to_add_of(s.take(i as int), t),
            to_remove.deep_view() == model::to_remove_of(s.take(i as int), t),
        decreases source_albums.len() - i,
    {
        let album = &source_albums[i];
        if album.selected {
            if !contains_name(target_albums, &album.name) {
                to_add.push(album.path.clone());
            }
        } else {
            if contains_name(target_albums, &album.name) {
                to_remove.push(album.path.clone());
            }
        }
        proof {
            let taken = s.take(i + 1 as int);
            assert(taken.drop_last() =~= s.take(i as int));
            assert(taken.last() == s[i as int]);
            assert(to_add.deep_view() =~= model::to_add_of(taken, t));
            assert(to_remove.deep_view() =~= model::to_remove_of(taken, t));
        }
        i += 1;
    }
    proof {
        assert(s.take(source_albums.len() as int) =~= s);
    }
    SyncPlan { to_add, to_remove }
}

/// Judges the outcome of executing a plan, given the paths whose copies
/// failed: success only when nothing failed, else `SyncPartiallyFailed`
/// naming exactly the failed paths. The copies that did succeed stay
/// applied; there is no rollback.
pub fn execute_report(failed: Vec<String>) -> (r: Result<(), ErrorKind>)
    ensures
        failed@.len() == 0 ==> r == Ok::<(), ErrorKind>(()),
        failed@.len() > 0 ==> r == Err::<(), ErrorKind>(ErrorKind::SyncPartiallyFailed(failed)),
{
    if failed.is_empty() {
        Ok(())
    } else {
        Err(ErrorKind::SyncPartiallyFailed(failed))
    }
}

} // verus!

//! Turning one enumeration of a root directory into an album list. The host
//! does the reading: it hands in the picked root (if any) and the entries it
//! could enumerate (or nothing, when the root could not be opened); entries
//! whose name could not be decoded as text are already skipped by the host,
//! one bad entry never blocks the others.

use vstd::prelude::*;

use crate::album::{Album, RawEntry};
use crate::error::ErrorKind;
use crate::model;

verus! {

/// Builds the album list of one enumeration: fails with `NoRootSelected`
/// when no root was picked and with `DirectoryUnreadable` when the root
/// could not be opened; otherwise returns one album per entry, in
/// enumeration order, each with `selected == false`. The order is the
/// filesystem's, not sorted: callers may rely on it only for display.
pub fn load_albums(folder: Option<String>, entries: Option<Vec<RawEntry>>) -> (r: Result<
    Vec<Album>,
    ErrorKind,
>)
    ensures
        folder is None ==> r == Err::<Vec<Album>, ErrorKind>(ErrorKind::NoRootSelected),
        folder is Some && entries is None ==> r == Err::<Vec<Album>, ErrorKind>(
            ErrorKind::DirectoryUnreadable,
        ),
        folder is Some && entries is Some ==> r is Ok && r->Ok_0.deep_view() == model::albums_of(
            entries->Some_0.deep_view(),
        ),
{
    if folder.is_none() {
        return Err(ErrorKind::NoRootSelected);
    }
    let entries = match entries {
        None => {
            return Err(ErrorKind::DirectoryUnreadable);
        },
        Some(es) => es,
    };
    let ghost es = entries.deep_view();
    let mut albums: Vec<Album> = Vec::new();
    let mut i: usize = 0;
    while i < entries.len()
        invariant
            i <= entries.len(),
            es == entries.deep_view(),
            es.len() == entries.len(),
            albums.deep_view().len() == i,
            forall|k: int| 0 <= k < i ==> albums.deep_view()[k] == model::album_of_entry(es[k]),
        decreases entries.len() - i,
    {
        let e = &entries[i];
        let ghost albums0 = albums.deep_view();
        albums.push(Album { name: e.name.clone(), path: e.path.clone(), selected: false });
        proof {
            assert forall|k: int| 0 <= k <= i implies albums.deep_view()[k]
                == model::album_of_entry(es[k]) by {
                if k < i {
                    assert(albums.deep_view()[k] == albums0[k]);
                } else {
                    assert(albums.deep_view()[k] =~= model::album_of_entry(es[k]));
                }
            }
        }
        i += 1;
    }
    proof {
        assert(albums.deep_view() =~= model::albums_of(es));
    }
    Ok(albums)
}

} // verus!

//! The album value types: a raw directory entry as the host hands it in, and
//! an album with its selection flag, together with their mathematical views.

use vstd::prelude::*;

verus! {

/// Mathematical view of a raw directory entry: its decoded name and path.
#[verifier::ext_equal]
pub ghost struct RawEntryView {
    pub name: Seq<char>,
    pub path: Seq<char>,
}

/// One immediate child of a root directory, as enumerated by the host:
/// the entry's decoded file name and its absolute path.
#[derive(Debug)]
pub struct RawEntry {
    pub name: String,
    pub path: String,
}

impl Clone for RawEntry {
    fn clone(&self) -> (r: Self)
        ensures
            r == *self,
    {
        RawEntry { name: self.name.clone(), path: self.path.clone() }
    }
}

impl View for RawEntry {
    type V = RawEntryView;

    open spec fn view(&self) -> RawEntryView {
        RawEntryView { name: self.name@, path: self.path@ }
    }
}

impl DeepView for RawEntry {
    type V = RawEntryView;

    open spec fn deep_view(&self) -> RawEntryView {
        self@
    }
}

/// Mathematical view of an album: name, path and selection flag.
#[verifier::ext_equal]
pub ghost struct AlbumView {
    pub name: Seq<char>,
    pub path: Seq<char>,
    pub selected: bool,
}

/// One album: a top-level entry of a root directory, identified by its name,
/// carrying the path it was found at and a flag marking it for syncing.
#[derive(Debug)]
pub struct Album {
    pub name: String,
    pub path: String,
    pub selected: bool,
}

impl Clone for Album {
    fn clone(&self) -> (r: Self)
        ensures
            r == *self,
    {
        Album { name: self.name.clone(), path: self.path.clone(), selected: self.selected }
    }
}

impl View for Album {
    type V = AlbumView;

    open spec fn view(&self) -> AlbumView {
        AlbumView { name: self.name@, path: self.path@, selected: self.selected }
    }
}

impl DeepView for Album {
    type V = AlbumView;

    open spec fn deep_view(&self) -> AlbumView {
        self@
    }
}

/// Clones an album list; the copy equals the original, album for album.
pub fn clone_albums(v: &Vec<Album>) -> (r: Vec<Album>)
    ensures
        r@ == v@,
{
    let r = v.clone();
    proof {
        assert(r@ =~= v@);
    }
    r
}

} // verus!

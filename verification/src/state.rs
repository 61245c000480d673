//! The selection store: the two root paths, their most recently listed album
//! lists, and the last error text. It changes only through `update`, which
//! handles one resolved user action at a time; the host performs the folder
//! picking, the directory reads and the copies, and hands their outcomes in
//! as plain values.

use vstd::prelude::*;

use crate::album::{clone_albums, Album, AlbumView, RawEntry, RawEntryView};
use crate::diff::diff_on_albums_list;
use crate::error::{error_text, ErrorKind};
use crate::lister::load_albums;
use crate::model;
use crate::plan::{compute_plan, SyncPlan};

verus! {

/// Mathematical view of the selection state.
#[verifier::ext_equal]
pub ghost struct MyAppView {
    pub error_message: Seq<char>,
    pub source_folder: Option<Seq<char>>,
    pub target_folder: Option<Seq<char>>,
    pub source_albums: Seq<AlbumView>,
    pub target_albums: Seq<AlbumView>,
}

/// The application state. The `selected` flag is meaningful only on the
/// source list; target albums carry it but it is never read for them.
pub struct MyApp {
    pub error_message: String,
    pub source_folder: Option<String>,
    pub target_folder: Option<String>,
    pub source_albums: Vec<Album>,
    pub target_albums: Vec<Album>,
}

impl View for MyApp {
    type V = MyAppView;

    open spec fn view(&self) -> MyAppView {
        MyAppView {
            error_message: self.error_message@,
            source_folder: self.source_folder.deep_view(),
            target_folder: self.target_folder.deep_view(),
            source_albums: self.source_albums.deep_view(),
            target_albums: self.target_albums.deep_view(),
        }
    }
}

/// One user action, with everything the outside world contributed already
/// resolved to plain values: the picked root and the entries read under it,
/// or the outcome of the copies of a sync.
#[derive(Debug)]
pub enum Message {
    /// A source root was picked (or the pick cancelled), and its entries
    /// were read (or could not be).
    SelectSourceDir(Option<String>, Option<Vec<RawEntry>>),
    /// A target root was picked, likewise.
    SelectTargetDir(Option<String>, Option<Vec<RawEntry>>),
    /// A sync ran; `Ok` when every planned copy succeeded.
    SyncFinished(Result<(), ErrorKind>),
    /// The album with this name was clicked.
    Album(String),
}

/// Mathematical view of a message; of a sync outcome only success or
/// failure matters to the state.
pub ghost enum MessageView {
    SelectSourceDir { folder: Option<Seq<char>>, entries: Option<Seq<RawEntryView>> },
    SelectTargetDir { folder: Option<Seq<char>>, entries: Option<Seq<RawEntryView>> },
    SyncFinished { ok: bool },
    Album { name: Seq<char> },
}

impl View for Message {
    type V = MessageView;

    open spec fn view(&self) -> MessageView {
        match self {
            Message::SelectSourceDir(folder, entries) => MessageView::SelectSourceDir {
                folder: folder.deep_view(),
                entries: entries.deep_view(),
            },
            Message::SelectTargetDir(folder, entries) => MessageView::SelectTargetDir {
                folder: folder.deep_view(),
                entries: entries.deep_view(),
            },
            Message::SyncFinished(outcome) => MessageView::SyncFinished { ok: outcome is Ok },
            Message::Album(name) => MessageView::Album { name: name@ },
        }
    }
}

/// What one enumeration yields: the fresh album list, or nothing when no
/// root was picked or the root could not be read.
pub open spec fn listed_albums(
    folder: Option<Seq<char>>,
    entries: Option<Seq<RawEntryView>>,
) -> Option<Seq<AlbumView>> {
    if folder is Some && entries is Some {
        Some(model::albums_of(entries->0))
    } else {
        None
    }
}

/// Which error a failed enumeration reports: a missing pick beats an
/// unreadable directory.
pub open spec fn list_error(folder: Option<Seq<char>>) -> ErrorKind {
    if folder is None {
        ErrorKind::NoRootSelected
    } else {
        ErrorKind::DirectoryUnreadable
    }
}

/// Picking a source root: the root is recorded either way, but only a
/// successful listing replaces the source list, freshly reconciled against
/// the current target list. A failed listing records the error text and
/// leaves both album lists exactly as they were: no flag moves.
pub open spec fn pick_source_step(
    st: MyAppView,
    folder: Option<Seq<char>>,
    entries: Option<Seq<RawEntryView>>,
) -> MyAppView {
    match listed_albums(folder, entries) {
        Some(albums) => MyAppView {
            source_folder: folder,
            source_albums: model::reconcile(albums, st.target_albums),
            ..st
        },
        None => MyAppView {
            source_folder: folder,
            error_message: error_text(list_error(folder)),
            ..st
        },
    }
}

/// Picking a target root, symmetrically: only a successful listing replaces
/// the target list and reconciles the source list against it; a failed one
/// records the error text and leaves both album lists untouched.
pub open spec fn pick_target_step(
    st: MyAppView,
    folder: Option<Seq<char>>,
    entries: Option<Seq<RawEntryView>>,
) -> MyAppView {
    match listed_albums(folder, entries) {
        Some(albums) => MyAppView {
            target_folder: folder,
            target_albums: albums,
            source_albums: model::reconcile(st.source_albums, albums),
            ..st
        },
        None => MyAppView {
            target_folder: folder,
            error_message: error_text(list_error(folder)),
            ..st
        },
    }
}

/// Clicking one album: its `selected` flag is inverted; nothing else moves.
pub open spec fn toggle_step(st: MyAppView, name: Seq<char>) -> MyAppView {
    MyAppView { source_albums: model::toggle(st.source_albums, name), ..st }
}

/// A finished sync: success changes nothing, any failure records the one
/// sync error text. No error is fatal; the next action may retry.
pub open spec fn sync_finished_step(st: MyAppView, ok: bool) -> MyAppView {
    if ok {
        st
    } else {
        MyAppView { error_message: "Error when syncing"@, ..st }
    }
}

/// The whole state machine: what each resolved action does to the state.
pub open spec fn step(st: MyAppView, m: MessageView) -> MyAppView {
    match m {
        MessageView::SelectSourceDir { folder, entries } => pick_source_step(st, folder, entries),
        MessageView::SelectTargetDir { folder, entries } => pick_target_step(st, folder, entries),
        MessageView::SyncFinished { ok } => sync_finished_step(st, ok),
        MessageView::Album { name } => toggle_step(st, name),
    }
}

/// The state everything starts from: no roots, no albums, no error text.
pub open spec fn init_state() -> MyAppView {
    MyAppView {
        error_message: Seq::empty(),
        source_folder: None,
        target_folder: None,
        source_albums: Seq::empty(),
        target_albums: Seq::empty(),
    }
}

impl Default for MyApp {
    /// The initial state.
    fn default() -> (r: MyApp)
        ensures
            r@ == init_state(),
    {
        let app = MyApp {
            error_message: String::new(),
            source_folder: None,
            target_folder: None,
            source_albums: Vec::new(),
            target_albums: Vec::new(),
        };
        proof {
            assert(app@ =~= init_state());
        }
        app
    }
}

impl MyApp {
    /// Handles one resolved user action; the state afterwards is exactly
    /// what the state machine `step` says.
    pub fn update(&mut self, message: Message)
        ensures
            final(self)@ == step(old(self)@, message@),
    {
        match message {
            Message::SelectSourceDir(folder, entries) => self.pick_source(folder, entries),
            Message::SelectTargetDir(folder, entries) => self.pick_target(folder, entries),
            Message::SyncFinished(outcome) => match outcome {
                Ok(_) => {},
                Err(_) => {
                    self.error_message = "Error when syncing".to_string();
                },
            },
            Message::Album(album_name) => self.select_album(album_name),
        }
    }

    /// Records a picked source root and the entries read under it. Only a
    /// successful listing replaces the source list, reconciled against the
    /// current target list; a failed one records the error and leaves the
    /// previous lists intact.
    pub fn pick_source(&mut self, folder: Option<String>, entries: Option<Vec<RawEntry>>)
        ensures
            final(self)@ == pick_source_step(old(self)@, folder.deep_view(), entries.deep_view()),
    {
        self.source_folder = folder;
        match load_albums(self.source_folder.clone(), entries) {
            Err(e) => {
                self.error_message = e.message();
            },
            Ok(albums) => {
                self.source_albums = diff_on_albums_list(
                    albums,
                    clone_albums(&self.target_albums),
                );
            },
        }
        proof {
            assert(self@ =~= pick_source_step(old(self)@, folder.deep_view(), entries.deep_view()));
        }
    }

    /// Records a picked target root and the entries read under it. Only a
    /// successful listing replaces the target list and reconciles the source
    /// list against it; a failed one records the error and leaves the
    /// previous lists intact.
    pub fn pick_target(&mut self, folder: Option<String>, entries: Option<Vec<RawEntry>>)
        ensures
            final(self)@ == pick_target_step(old(self)@, folder.deep_view(), entries.deep_view()),
    {
        self.target_folder = folder;
        match load_albums(self.target_folder.clone(), entries) {
            Err(e) => {
                self.error_message = e.message();
            },
            Ok(albums) => {
                self.target_albums = albums;
                self.source_albums = diff_on_albums_list(
                    clone_albums(&self.source_albums),
                    clone_albums(&self.target_albums),
                );
            },
        }
        proof {
            assert(self@ =~= pick_target_step(old(self)@, folder.deep_view(), entries.deep_view()));
        }
    }

    /// Inverts the `selected` flag of the album called `selected_album`;
    /// every other album, and an unmatched name, is left as it was.
    pub fn select_album(&mut self, selected_album: String)
        ensures
            final(self)@ == toggle_step(old(self)@, selected_album@),
    {
        let ghost s = self.source_albums.deep_view();
        let mut out: Vec<Album> = Vec::new();
        let mut i: usize = 0;
        while i < self.source_albums.len()
            invariant
                i <= self.source_albums.len(),
                s == self.source_albums.deep_view(),
                s.len() == self.source_albums.len(),
                out.deep_view().len() == i,
                forall|k: int|
                    0 <= k < i ==> out.deep_view()[k] == model::toggle(s, selected_album@)[k],
            decreases self.source_albums.len() - i,
        {
            let entry = &self.source_albums[i];
            let mut album = entry.clone();
            if album.name == selected_album {
                album.selected = !album.selected;
            }
            let ghost out0 = out.deep_view();
            out.push(album);
            proof {
                assert forall|k: int|
                    0 <= k <= i implies out.deep_view()[k] == model::toggle(s, selected_album@)[k] by {
                    if k < i {
                        assert(out.deep_view()[k] == out0[k]);
                    } else {
                        assert(out.deep_view()[k] =~= model::toggle(s, selected_album@)[k]);
                    }
                }
            }
            i += 1;
        }
        self.source_albums = out;
        proof {
            assert(self.source_albums.deep_view() =~= model::toggle(s, selected_album@));
            assert(self@ =~= toggle_step(old(self)@, selected_album@));
        }
    }

    /// Computes the sync plan for the current state: fails with
    /// `TargetRootMissing` when no target root is set, and otherwise always
    /// returns the plan derived from the current source and target lists.
    pub fn sync_albums(&self) -> (r: Result<SyncPlan, ErrorKind>)
        ensures
            self.target_folder is Some ==> r is Ok && r->Ok_0@ == model::plan_of(
                self@.source_albums,
                self@.target_albums,
            ),
            self.target_folder is None ==> r == Err::<SyncPlan, ErrorKind>(
                ErrorKind::TargetRootMissing,
            ),
    {
        if self.target_folder.is_none() {
            return Err(ErrorKind::TargetRootMissing);
        }
        Ok(compute_plan(&self.source_albums, &self.target_albums))
    }
}

} // verus!

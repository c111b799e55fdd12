//! The combined interactive state: directory listing plus document pane, and
//! the dispatch of one key event to the matching navigation or scroll step.
//! Filesystem reads happen outside the library: where a transition needs one,
//! the dispatcher hands back an action naming the path to read.

use vstd::prelude::*;

use crate::document_viewer::DocumentViewer;
use crate::document_viewer::scroll_down_spec;
use crate::document_viewer::scroll_up_spec;
use crate::document_viewer::split_lines;
use crate::stateful_table::DirEntry;
use crate::stateful_table::StatefulTable;
use crate::stateful_table::next_sel;
use crate::stateful_table::prev_sel;

verus! {

/// One key event, as the input collaborator delivers it.
#[derive(Clone, Copy, PartialEq, Eq, Structural, Debug)]
pub enum Key {
    Up,
    Down,
    Enter,
    Backspace,
    PageUp,
    PageDown,
    Quit,
}

/// What the caller must do after a key was dispatched: nothing, read the
/// named directory and apply its listing, canonicalize the named path and
/// apply the listing of its grandparent, or end the session.
#[derive(PartialEq, Eq, Debug)]
pub enum Action {
    Stay,
    Descend(String),
    Ascend(String),
    Stop,
}

/// The whole interactive state: the navigator and the document pane.
pub struct Browser {
    pub table: StatefulTable,
    pub viewer: DocumentViewer,
}

impl Browser {
    /// A fresh browser over the given listing, previewing `contents` from
    /// the top.
    pub fn new(items: Vec<DirEntry>, contents: String) -> (r: Browser)
        ensures
            r.table.wf(),
            r.table.entries() == items.deep_view(),
            r.table.sel() == (if items@.len() == 0 {
                Option::<int>::None
            } else {
                Option::Some(0int)
            }),
            r.viewer.lines_view() == split_lines(contents@),
            r.viewer.offset_spec() == 0,
    {
        Browser { table: StatefulTable::new(items), viewer: DocumentViewer::new(contents) }
    }

    /// Dispatch one key event. Selection steps reset the scroll offset;
    /// scroll steps leave the listing alone; entering a directory and
    /// stepping out are handed back as actions, with the state untouched
    /// until the caller applies the freshly read listing.
    pub fn handle_key(&mut self, key: Key) -> (act: Action)
        requires
            old(self).table.wf(),
        ensures
            final(self).table.wf(),
            match key {
                Key::Down => {
                    &&& final(self).table.entries() == old(self).table.entries()
                    &&& final(self).table.sel() == next_sel(
                        old(self).table.sel(),
                        old(self).table.entries().len() as int,
                    )
                    &&& final(self).viewer.lines_view() == old(self).viewer.lines_view()
                    &&& final(self).viewer.offset_spec() == 0
                    &&& act == Action::Stay
                },
                Key::Up => {
                    &&& final(self).table.entries() == old(self).table.entries()
                    &&& final(self).table.sel() == prev_sel(
                        old(self).table.sel(),
                        old(self).table.entries().len() as int,
                    )
                    &&& final(self).viewer.lines_view() == old(self).viewer.lines_view()
                    &&& final(self).viewer.offset_spec() == 0
                    &&& act == Action::Stay
                },
                Key::Enter => {
                    &&& *final(self) == *old(self)
                    &&& match old(self).table.sel() {
                        Option::Some(i) => if old(self).table.entries()[i].is_dir {
                            act matches Action::Descend(p) && p@ == old(self).table.entries()[i].path
                        } else {
                            act == Action::Stay
                        },
                        Option::None => act == Action::Stay,
                    }
                },
                Key::Backspace => {
                    &&& *final(self) == *old(self)
                    &&& match old(self).table.sel() {
                        Option::Some(i) => act matches Action::Ascend(p) && p@ == old(
                            self,
                        ).table.entries()[i].path,
                        Option::None => act == Action::Stay,
                    }
                },
                Key::PageDown => {
                    &&& final(self).table.entries() == old(self).table.entries()
                    &&& final(self).table.sel() == old(self).table.sel()
                    &&& final(self).viewer.lines_view() == old(self).viewer.lines_view()
                    &&& final(self).viewer.offset_spec() == scroll_down_spec(
                        old(self).viewer.offset_spec(),
                        old(self).viewer.lines_view().len() as int,
                    )
                    &&& act == Action::Stay
                },
                Key::PageUp => {
                    &&& final(self).table.entries() == old(self).table.entries()
                    &&& final(self).table.sel() == old(self).table.sel()
                    &&& final(self).viewer.lines_view() == old(self).viewer.lines_view()
                    &&& final(self).viewer.offset_spec() == scroll_up_spec(
                        old(self).viewer.offset_spec(),
                    )
                    &&& act == Action::Stay
                },
                Key::Quit => {
                    &&& *final(self) == *old(self)
                    &&& act == Action::Stop
                },
            },
    {
        match key {
            Key::Down => {
                self.table.next();
                self.viewer.get_mut_state().set_offset(0);
                Action::Stay
            },
            Key::Up => {
                self.table.prev();
                self.viewer.get_mut_state().set_offset(0);
                Action::Stay
            },
            Key::Enter => {
                match self.table.enter_target() {
                    Some(p) => Action::Descend(p),
                    None => Action::Stay,
                }
            },
            Key::Backspace => {
                match self.table.get_selected() {
                    Ok(entry) => Action::Ascend(entry.path.clone()),
                    Err(_) => Action::Stay,
                }
            },
            Key::PageDown => {
                self.viewer.scroll_down();
                Action::Stay
            },
            Key::PageUp => {
                self.viewer.scroll_up();
                Action::Stay
            },
            Key::Quit => Action::Stop,
        }
    }

    /// Apply a freshly read directory listing: replace the entries, reset
    /// the selection to the first entry, and scroll back to the top.
    pub fn apply_listing(&mut self, items: Vec<DirEntry>)
        ensures
            final(self).table.wf(),
            final(self).table.entries() == items.deep_view(),
            final(self).table.sel() == (if items@.len() == 0 {
                Option::<int>::None
            } else {
                Option::Some(0int)
            }),
            final(self).viewer.lines_view() == old(self).viewer.lines_view(),
            final(self).viewer.offset_spec() == 0,
    {
        self.table.set_items(items);
        self.viewer.get_mut_state().set_offset(0);
    }

    /// Replace the previewed document, leaving listing, selection and scroll
    /// offset alone.
    pub fn set_document(&mut self, contents: String)
        ensures
            final(self).table == old(self).table,
            final(self).viewer.lines_view() == split_lines(contents@),
            final(self).viewer.offset_spec() == old(self).viewer.offset_spec(),
    {
        self.viewer.set_contents(contents);
    }
}

} // verus!

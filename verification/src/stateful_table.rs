//! The directory navigator: the current listing of directory entries and a
//! cyclic selection cursor over it.

use vstd::prelude::*;

verus! {

/// One directory entry, captured as a plain value record at listing time:
/// its display name, its full path, and whether it is a directory.
pub struct DirEntry {
    pub name: String,
    pub path: String,
    pub is_dir: bool,
}

/// The mathematical value of a directory entry.
pub struct EntryView {
    pub name: Seq<char>,
    pub path: Seq<char>,
    pub is_dir: bool,
}

impl View for DirEntry {
    type V = EntryView;

    open spec fn view(&self) -> EntryView {
        EntryView { name: self.name@, path: self.path@, is_dir: self.is_dir }
    }
}

impl DeepView for DirEntry {
    type V = EntryView;

    open spec fn deep_view(&self) -> EntryView {
        self.view()
    }
}

impl Clone for DirEntry {
    fn clone(&self) -> (r: Self)
        ensures
            r@ == self@,
    {
        DirEntry { name: self.name.clone(), path: self.path.clone(), is_dir: self.is_dir }
    }
}

/// Why a navigation operation could not produce a value: the listing was
/// empty, or the filesystem refused a read.
#[derive(Clone, Copy, PartialEq, Eq, Structural, Debug)]
pub enum NavError {
    IoError,
    NoSelection,
}

/// The selection after one step forward: past the last index it wraps to 0;
/// on an empty listing there is nothing to select.
pub open spec fn next_sel(sel: Option<int>, len: int) -> Option<int> {
    match sel {
        Option::Some(i) => if i >= len - 1 {
            Option::Some(0int)
        } else {
            Option::Some(i + 1)
        },
        Option::None => Option::None,
    }
}

/// The selection after one step backward: before index 0 it wraps to the
/// last index; on an empty listing there is nothing to select.
pub open spec fn prev_sel(sel: Option<int>, len: int) -> Option<int> {
    match sel {
        Option::Some(i) => if i == 0 {
            Option::Some(len - 1)
        } else {
            Option::Some(i - 1)
        },
        Option::None => Option::None,
    }
}

/// Law: on a listing of length at least 1, stepping forward then backward —
/// or backward then forward — returns the selection to where it was.
pub proof fn lemma_step_round_trip(i: int, len: int)
    requires
        1 <= len,
        0 <= i < len,
    ensures
        prev_sel(next_sel(Option::Some(i), len), len) == Option::Some(i),
        next_sel(prev_sel(Option::Some(i), len), len) == Option::Some(i),
{
}

/// The directory listing with its selection cursor.
pub struct StatefulTable {
    items: Vec<DirEntry>,
    selection: Option<usize>,
}

impl StatefulTable {
    /// The entries of the current listing.
    pub closed spec fn entries(&self) -> Seq<EntryView> {
        self.items.deep_view()
    }

    /// The current selection index, or `None` on an empty listing.
    pub closed spec fn sel(&self) -> Option<int> {
        match self.selection {
            Option::Some(i) => Option::Some(i as int),
            Option::None => Option::None,
        }
    }

    /// The selection is `None` exactly on an empty listing, and otherwise a
    /// valid index into it.
    pub closed spec fn wf(&self) -> bool {
        match self.selection {
            Option::Some(i) => 0 < self.items@.len() && i < self.items@.len(),
            Option::None => self.items@.len() == 0,
        }
    }

    /// Law (the selection invariant): a well-formed table selects nothing
    /// exactly when its listing is empty, and otherwise a valid index.
    pub proof fn lemma_wf(self)
        requires
            self.wf(),
        ensures
            self.sel() is None <==> self.entries().len() == 0,
            self.sel() matches Option::Some(i) ==> 0 <= i < self.entries().len(),
    {
    }

    /// A fresh table over `items`, selecting the first entry, or nothing
    /// when `items` is empty.
    pub fn new(items: Vec<DirEntry>) -> (r: StatefulTable)
        ensures
            r.wf(),
            r.entries() == items.deep_view(),
            r.sel() == (if items@.len() == 0 {
                Option::<int>::None
            } else {
                Option::Some(0int)
            }),
    {
        let selection: Option<usize> = if items.len() == 0 {
            None
        } else {
            Some(0)
        };
        StatefulTable { items, selection }
    }

    /// Replace the listing wholesale and reset the selection to the first
    /// entry, or to nothing when the new listing is empty.
    pub fn set_items(&mut self, items: Vec<DirEntry>)
        ensures
            final(self).wf(),
            final(self).entries() == items.deep_view(),
            final(self).sel() == (if items@.len() == 0 {
                Option::<int>::None
            } else {
                Option::Some(0int)
            }),
    {
        self.selection = if items.len() == 0 {
            None
        } else {
            Some(0)
        };
        self.items = items;
    }

    /// The number of entries in the listing.
    pub fn len(&self) -> (r: usize)
        ensures
            r as int == self.entries().len(),
    {
        self.items.len()
    }

    /// Read-only access to the entries of the listing.
    pub fn items(&self) -> (r: &Vec<DirEntry>)
        ensures
            r.deep_view() == self.entries(),
    {
        &self.items
    }

    /// The current selection index, or `None` on an empty listing.
    pub fn selected_index(&self) -> (r: Option<usize>)
        ensures
            r matches Option::Some(i) ==> self.sel() == Option::Some(i as int),
            r is None ==> self.sel() is None,
    {
        self.selection
    }

    /// The selected entry; fails with `NoSelection` exactly when the listing
    /// is empty.
    pub fn get_selected(&self) -> (r: Result<&DirEntry, NavError>)
        requires
            self.wf(),
        ensures
            r is Ok <==> self.entries().len() > 0,
            r is Ok <==> self.sel() is Some,
            r matches Ok(e) ==> self.sel() matches Option::Some(i) && e@ == self.entries()[i],
            r matches Err(err) ==> err == NavError::NoSelection,
    {
        match self.selection {
            Some(i) => Ok(&self.items[i]),
            None => Err(NavError::NoSelection),
        }
    }

    /// Step the selection one entry forward, wrapping from the last index to
    /// 0. A no-op on an empty listing.
    pub fn next(&mut self)
        requires
            old(self).wf(),
        ensures
            final(self).wf(),
            final(self).entries() == old(self).entries(),
            final(self).sel() == next_sel(old(self).sel(), old(self).entries().len() as int),
            old(self).sel() == Option::Some(old(self).entries().len() - 1) ==> final(self).sel()
                == Option::Some(0int),
    {
        match self.selection {
            Some(i) => {
                let last = self.items.len() - 1;
                if i >= last {
                    self.selection = Some(0);
                } else {
                    self.selection = Some(i + 1);
                }
            },
            None => {},
        }
    }

    /// Step the selection one entry backward, wrapping from index 0 to the
    /// last index. A no-op on an empty listing.
    pub fn prev(&mut self)
        requires
            old(self).wf(),
        ensures
            final(self).wf(),
            final(self).entries() == old(self).entries(),
            final(self).sel() == prev_sel(old(self).sel(), old(self).entries().len() as int),
            old(self).sel() == Option::Some(0int) ==> final(self).sel() == Option::Some(
                old(self).entries().len() - 1,
            ),
    {
        match self.selection {
            Some(i) => {
                if i == 0 {
                    self.selection = Some(self.items.len() - 1);
                } else {
                    self.selection = Some(i - 1);
                }
            },
            None => {},
        }
    }

    /// The path to descend into: the selected entry's path when that entry
    /// is a directory, and `None` otherwise (including on an empty listing,
    /// and when the selected entry is a plain file).
    pub fn enter_target(&self) -> (r: Option<String>)
        requires
            self.wf(),
        ensures
            match self.sel() {
                Option::Some(i) => if self.entries()[i].is_dir {
                    r matches Option::Some(p) && p@ == self.entries()[i].path
                } else {
                    r is None
                },
                Option::None => r is None,
            },
    {
        match self.selection {
            Some(i) => {
                let entry = &self.items[i];
                if entry.is_dir {
                    Some(entry.path.clone())
                } else {
                    None
                }
            },
            None => None,
        }
    }
}

} // verus!

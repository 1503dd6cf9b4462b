//! The directory on display: its path, its sorted entries and the cursor.

use crate::entries::{lemma_sorted_names, name_order, names, read_entries, sorted_names};
use crate::paths::{join, parent, path_join, path_parent};
use vstd::prelude::*;
use vstd::relations::sorted_by;

verus! {

/// What a `DirectoryView` stands for.
pub struct DirectoryModel {
    /// The path of the directory on display.
    pub focus_dir: Seq<char>,
    /// The names of its immediate children.
    pub entries: Seq<Seq<char>>,
    /// The cursor into `entries`.
    pub selected_index: int,
}

impl DirectoryModel {
    /// The entries are sorted, and the cursor is on one of them, or is 0
    /// where there is none.
    pub open spec fn wf(self) -> bool {
        &&& sorted_by(self.entries, name_order())
        &&& if self.entries.len() == 0 {
            self.selected_index == 0
        } else {
            0 <= self.selected_index < self.entries.len()
        }
    }

    /// The cursor is on an entry.
    pub open spec fn has_selection(self) -> bool {
        0 <= self.selected_index < self.entries.len()
    }

    /// The name under the cursor.
    pub open spec fn selected_name(self) -> Seq<char>
        recommends
            self.has_selection(),
    {
        self.entries[self.selected_index]
    }

    /// The path of the entry under the cursor.
    pub open spec fn selected_path(self) -> Seq<char>
        recommends
            self.has_selection(),
    {
        path_join(self.focus_dir, self.selected_name())
    }

    /// The path of the directory that holds this one.
    pub open spec fn parent_path(self) -> Seq<char> {
        path_parent(self.focus_dir)
    }

    /// The directory `focus_dir` freshly listed, with the cursor at the top.
    pub open spec fn listing(focus_dir: Seq<char>, children: Seq<Seq<char>>) -> DirectoryModel {
        DirectoryModel { focus_dir, entries: sorted_names(children), selected_index: 0 }
    }

    /// The cursor one entry up, unless it is at the top.
    pub open spec fn up(self) -> DirectoryModel {
        if self.selected_index > 0 {
            DirectoryModel { selected_index: self.selected_index - 1, ..self }
        } else {
            self
        }
    }

    /// The cursor one entry down, unless it is at the bottom.
    pub open spec fn down(self) -> DirectoryModel {
        if self.selected_index + 1 < self.entries.len() {
            DirectoryModel { selected_index: self.selected_index + 1, ..self }
        } else {
            self
        }
    }

    /// The same directory listed again: the cursor stays where it was, or
    /// moves to the last entry if it was beyond, or to 0 if none is left.
    pub open spec fn refreshed(self, children: Seq<Seq<char>>) -> DirectoryModel {
        let entries = sorted_names(children);
        DirectoryModel {
            focus_dir: self.focus_dir,
            entries,
            selected_index: if entries.len() == 0 {
                0
            } else if self.selected_index >= entries.len() {
                entries.len() - 1
            } else {
                self.selected_index
            },
        }
    }

    /// The entry under the cursor on display, `children` being what it holds.
    pub open spec fn entered(self, children: Seq<Seq<char>>) -> DirectoryModel
        recommends
            self.has_selection(),
    {
        DirectoryModel::listing(self.selected_path(), children)
    }

    /// The parent on display, `children` being what it holds.
    pub open spec fn left(self, children: Seq<Seq<char>>) -> DirectoryModel {
        DirectoryModel::listing(self.parent_path(), children)
    }
}

/// The directory on display.
pub struct DirectoryView {
    focus_dir: String,
    entries: Vec<String>,
    selected_index: usize,
}

impl View for DirectoryView {
    type V = DirectoryModel;

    closed spec fn view(&self) -> DirectoryModel {
        DirectoryModel {
            focus_dir: self.focus_dir@,
            entries: names(self.entries@),
            selected_index: self.selected_index as int,
        }
    }
}

impl DirectoryView {
    /// The directory at `focus_dir`, whose immediate children are
    /// `children`, with the cursor at the top.
    pub fn new(focus_dir: String, children: Vec<String>) -> (directory: DirectoryView)
        ensures
            directory@ == DirectoryModel::listing(focus_dir@, names(children@)),
            directory@.wf(),
    {
        DirectoryView { focus_dir, entries: read_entries(children), selected_index: 0 }
    }

    /// The path of the directory on display.
    pub fn focus_dir(&self) -> (path: &String)
        ensures
            path@ == self@.focus_dir,
    {
        &self.focus_dir
    }

    /// The sorted names of its immediate children.
    pub fn entries(&self) -> (entries: &Vec<String>)
        ensures
            names(entries@) == self@.entries,
    {
        &self.entries
    }

    /// The cursor.
    pub fn selected_index(&self) -> (index: usize)
        ensures
            index == self@.selected_index,
    {
        self.selected_index
    }

    /// The name under the cursor, if the cursor is on an entry.
    pub fn selected_name(&self) -> (name: Option<&String>)
        ensures
            name is Some <==> self@.has_selection(),
            name matches Some(n) ==> n@ == self@.selected_name(),
    {
        if self.selected_index < self.entries.len() {
            Some(&self.entries[self.selected_index])
        } else {
            None
        }
    }

    /// The path of the entry under the cursor.
    pub fn selected_path(&self) -> (path: String)
        requires
            self@.has_selection(),
        ensures
            path@ == self@.selected_path(),
    {
        join(self.focus_dir.as_str(), self.entries[self.selected_index].as_str())
    }

    /// The path of the entry under the cursor, if the cursor is on an entry.
    pub fn get_selected_path(&self) -> (path: Option<String>)
        ensures
            path is Some <==> self@.has_selection(),
            path matches Some(p) ==> p@ == self@.selected_path(),
    {
        if self.selected_index < self.entries.len() {
            Some(self.selected_path())
        } else {
            None
        }
    }

    /// The path of the directory that holds the one on display.
    pub fn parent_path(&self) -> (path: String)
        ensures
            path@ == self@.parent_path(),
    {
        parent(self.focus_dir.as_str())
    }

    /// Moves the cursor one entry up, unless it is at the top.
    pub fn move_up(&mut self)
        ensures
            final(self)@ == old(self)@.up(),
            old(self)@.wf() ==> final(self)@.wf(),
    {
        if self.selected_index > 0 {
            self.selected_index -= 1;
        }
    }

    /// Moves the cursor one entry down, unless it is at the bottom.
    pub fn move_down(&mut self)
        ensures
            final(self)@ == old(self)@.down(),
            old(self)@.wf() ==> final(self)@.wf(),
    {
        if self.entries.len() > 0 && self.selected_index < self.entries.len() - 1 {
            self.selected_index += 1;
        }
    }

    /// Takes `children` as what the directory on display now holds.
    pub fn refresh_entries(&mut self, children: Vec<String>)
        ensures
            final(self)@ == old(self)@.refreshed(names(children@)),
            final(self)@.wf(),
    {
        proof {
            lemma_refreshed_wf(self@, names(children@));
        }
        self.entries = read_entries(children);
        if self.entries.len() == 0 {
            self.selected_index = 0;
        } else if self.selected_index >= self.entries.len() {
            self.selected_index = self.entries.len() - 1;
        }
    }

    /// Puts the entry under the cursor on display, `children` being what it
    /// holds.
    pub fn enter(&mut self, children: Vec<String>)
        requires
            old(self)@.has_selection(),
        ensures
            final(self)@ == old(self)@.entered(names(children@)),
            final(self)@.wf(),
    {
        proof {
            lemma_listing_wf(self@.selected_path(), names(children@));
        }
        self.focus_dir = self.selected_path();
        self.entries = read_entries(children);
        self.selected_index = 0;
    }

    /// Puts the parent on display, `children` being what it holds.
    pub fn leave(&mut self, children: Vec<String>)
        ensures
            final(self)@ == old(self)@.left(names(children@)),
            final(self)@.wf(),
    {
        proof {
            lemma_listing_wf(self@.parent_path(), names(children@));
        }
        self.focus_dir = parent(self.focus_dir.as_str());
        self.entries = read_entries(children);
        self.selected_index = 0;
    }
}

/// A fresh listing is well formed.
pub proof fn lemma_listing_wf(focus_dir: Seq<char>, children: Seq<Seq<char>>)
    ensures
        DirectoryModel::listing(focus_dir, children).wf(),
{
    lemma_sorted_names(children);
}

/// A directory listed again is well formed, wherever the cursor was.
pub proof fn lemma_refreshed_wf(directory: DirectoryModel, children: Seq<Seq<char>>)
    requires
        0 <= directory.selected_index,
    ensures
        directory.refreshed(children).wf(),
{
    lemma_sorted_names(children);
}

} // verus!

use vstd::prelude::*;
use crate::dir_path::DirPath;
use crate::entry::{dirs_first, order_entries, FileEntry};

verus! {

/// What the user did in the browser's window.
#[derive(Debug, Clone, Copy, PartialEq, Eq, Structural)]
pub enum UiEvent {
    /// A click on the breadcrumb of the component at this index.
    Breadcrumb(usize),
    /// A click on "Up".
    Up,
    /// A click on the listed entry at this index.
    EntryClicked(usize),
    /// A double click on the listed entry at this index.
    EntryDoubleClicked(usize),
}

/// What the window has to do next.
#[derive(Debug)]
pub enum Action {
    /// Nothing.
    Stay,
    /// Read the current directory again and hand the listing to `load`.
    Reload,
    /// Open the file of this name in the current directory with the
    /// system's default program.
    OpenFile(String),
}

/// One breadcrumb of the path bar.
#[derive(Debug)]
pub struct Crumb {
    pub label: String,
    /// A "/" stands before it.
    pub separator_before: bool,
}

/// The browser's state: the directory shown and its listing.
#[derive(Debug)]
pub struct FileManager {
    pub current_dir: DirPath,
    pub entries: Vec<FileEntry>,
}

/// `a` and `b` show the same directory with the same listing.
pub open spec fn same_state(a: FileManager, b: FileManager) -> bool {
    &&& a.current_dir.anchor@ == b.current_dir.anchor@
    &&& a.current_dir.names@ == b.current_dir.names@
    &&& a.entries@ == b.entries@
}

impl FileManager {
    /// A browser at `dir` with nothing listed yet.
    pub fn new(dir: DirPath) -> (r: FileManager)
        ensures
            r.current_dir == dir,
            r.entries@.len() == 0,
    {
        FileManager { current_dir: dir, entries: Vec::new() }
    }

    /// "Up" is offered where the current directory has a parent.
    pub fn can_navigate_up(&self) -> (r: bool)
        ensures
            r == (self.current_dir.names@.len() > 0),
    {
        self.current_dir.has_parent()
    }

    /// The listing is empty, so the directory is to be read.
    pub fn needs_listing(&self) -> (r: bool)
        ensures
            r == (self.entries@.len() == 0),
    {
        self.entries.len() == 0
    }

    /// Replaces the listing with what was read of the current directory,
    /// directories first; an unreadable directory leaves it empty.
    pub fn load(&mut self, listing: Option<Vec<FileEntry>>)
        ensures
            final(self).current_dir == old(self).current_dir,
            final(self).entries@ == match listing {
                Some(v) => dirs_first(v@),
                None => Seq::<FileEntry>::empty(),
            },
    {
        match listing {
            Some(v) => {
                self.entries = order_entries(v);
            },
            None => {
                self.entries = Vec::new();
            },
        }
    }

    /// The breadcrumbs of the current directory, one per component, a "/"
    /// before each from the third on.
    pub fn breadcrumbs(&self) -> (r: Vec<Crumb>)
        requires
            self.current_dir.components().len() <= usize::MAX,
        ensures
            r@.len() == self.current_dir.components().len(),
            forall|i: int|
                0 <= i < r@.len() ==> (#[trigger] r@[i]).label == self.current_dir.components()[i]
                    && r@[i].separator_before == (i > 1),
    {
        let n = self.current_dir.component_count();
        let mut r: Vec<Crumb> = Vec::new();
        let mut i: usize = 0;
        while i < n
            invariant
                i <= n,
                n == self.current_dir.components().len(),
                r@.len() == i,
                forall|k: int|
                    0 <= k < i ==> (#[trigger] r@[k]).label == self.current_dir.components()[k]
                        && r@[k].separator_before == (k > 1),
            decreases n - i,
        {
            r.push(Crumb { label: self.current_dir.component(i), separator_before: i > 1 });
            i = i + 1;
        }
        r
    }

    /// Applies one user action. A breadcrumb moves to the path of the
    /// components up to it, "Up" to the parent, a click on a directory into
    /// it: each of these asks for a reload. A double click on a file asks to
    /// open it. Anything else (an index out of range, "Up" at the top, a
    /// click on a file, a double click on a directory) changes nothing.
    pub fn handle(&mut self, ev: UiEvent) -> (r: Action)
        requires
            old(self).current_dir.components().len() < usize::MAX,
        ensures
            match ev {
                UiEvent::Breadcrumb(i) => if i < old(self).current_dir.components().len() {
                    &&& r is Reload
                    &&& final(self).current_dir.components() == old(self).current_dir.components().take(i + 1)
                    &&& final(self).entries@ == old(self).entries@
                } else {
                    r is Stay && same_state(*final(self), *old(self))
                },
                UiEvent::Up => if old(self).current_dir.names@.len() > 0 {
                    &&& r is Reload
                    &&& final(self).current_dir.anchor@ == old(self).current_dir.anchor@
                    &&& final(self).current_dir.names@ == old(self).current_dir.names@.drop_last()
                    &&& final(self).entries@ == old(self).entries@
                } else {
                    r is Stay && same_state(*final(self), *old(self))
                },
                UiEvent::EntryClicked(i) => if i < old(self).entries@.len() && old(self).entries@[i as int].is_dir {
                    &&& r is Reload
                    &&& final(self).current_dir.anchor@ == old(self).current_dir.anchor@
                    &&& final(self).current_dir.names@ == old(self).current_dir.names@.push(
                        old(self).entries@[i as int].name,
                    )
                    &&& final(self).entries@ == old(self).entries@
                } else {
                    r is Stay && same_state(*final(self), *old(self))
                },
                UiEvent::EntryDoubleClicked(i) => {
                    &&& same_state(*final(self), *old(self))
                    &&& if i < old(self).entries@.len() && !old(self).entries@[i as int].is_dir {
                        r matches Action::OpenFile(name) && name == old(self).entries@[i as int].name
                    } else {
                        r is Stay
                    }
                },
            },
    {
        match ev {
            UiEvent::Breadcrumb(i) => {
                if i < self.current_dir.component_count() {
                    self.current_dir = self.current_dir.prefix(i + 1);
                    Action::Reload
                } else {
                    Action::Stay
                }
            },
            UiEvent::Up => match self.current_dir.parent() {
                Some(p) => {
                    self.current_dir = p;
                    Action::Reload
                },
                None => Action::Stay,
            },
            UiEvent::EntryClicked(i) => {
                if i < self.entries.len() && self.entries[i].is_dir {
                    self.current_dir = self.current_dir.join(&self.entries[i].name);
                    Action::Reload
                } else {
                    Action::Stay
                }
            },
            UiEvent::EntryDoubleClicked(i) => {
                if i < self.entries.len() && !self.entries[i].is_dir {
                    Action::OpenFile(self.entries[i].name.clone())
                } else {
                    Action::Stay
                }
            },
        }
    }
}

} // verus!

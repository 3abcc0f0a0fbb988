use vstd::prelude::*;
use crate::clock::{describe_modified, local_time_label, timestamp_in_range, unknown_text, Timestamp};
use crate::digits::{decimal, push_decimal};
use crate::size_text::{file_size_text, format_file_size};

verus! {

/// One row of a directory listing.
#[derive(Debug)]
pub struct FileEntry {
    pub name: String,
    pub is_dir: bool,
    /// The number of entries of a directory, the length of a file.
    pub size: u64,
    /// The label of the modification time.
    pub modified: String,
}

pub open spec fn is_dir_entry() -> spec_fn(FileEntry) -> bool {
    |e: FileEntry| e.is_dir
}

pub open spec fn is_file_entry() -> spec_fn(FileEntry) -> bool {
    |e: FileEntry| !e.is_dir
}

/// The directories of `s`, then its files, each group in the order of `s`.
pub open spec fn dirs_first(s: Seq<FileEntry>) -> Seq<FileEntry> {
    s.filter(is_dir_entry()) + s.filter(is_file_entry())
}

/// `n items`.
pub open spec fn item_count_text(n: nat) -> Seq<char> {
    decimal(n) + seq![' ', 'i', 't', 'e', 'm', 's']
}

pub open spec fn dir_icon() -> char {
    '\u{1F4C1}'
}

pub open spec fn file_icon() -> char {
    '\u{1F4C4}'
}

impl FileEntry {
    /// Builds the row of one directory entry. `size` is the number of
    /// entries of a directory or the length of a file, where it could be
    /// read; `modified` the modification time, where it could be read; `now`
    /// the time the listing is read at.
    pub fn from_listing(
        name: String,
        is_dir: bool,
        size: Option<u64>,
        modified: Option<Timestamp>,
        now: Timestamp,
    ) -> (r: FileEntry)
        ensures
            r.name == name,
            r.is_dir == is_dir,
            r.size == match size {
                Some(n) => n,
                None => 0,
            },
            modified is None ==> r.modified@ == unknown_text(),
            r.modified@ == unknown_text() || local_time_label(r.modified@, false),
            modified matches Some(ts) && timestamp_in_range(ts) ==> local_time_label(
                r.modified@,
                timestamp_in_range(now),
            ),
    {
        let n: u64 = match size {
            Some(n) => n,
            None => 0,
        };
        FileEntry { name, is_dir, size: n, modified: describe_modified(modified, now) }
    }

    /// A copy of the row.
    pub fn duplicate(&self) -> (r: FileEntry)
        ensures
            r == *self,
    {
        FileEntry {
            name: self.name.clone(),
            is_dir: self.is_dir,
            size: self.size,
            modified: self.modified.clone(),
        }
    }

    /// The text of the size column: `n items` for a directory, the file
    /// size label for a file.
    pub fn size_label(&self) -> (r: String)
        ensures
            self.is_dir ==> r@ == item_count_text(self.size as nat),
            !self.is_dir ==> r@ == file_size_text(self.size as nat),
    {
        if self.is_dir {
            let mut s = String::new();
            push_decimal(&mut s, self.size);
            s.append(" items");
            proof {
                reveal_strlit(" items");
            }
            s
        } else {
            format_file_size(self.size)
        }
    }

    /// The text of the name column: a folder or page icon, a space, the name.
    pub fn name_label(&self) -> (r: String)
        ensures
            r@ == seq![if self.is_dir { dir_icon() } else { file_icon() }, ' '] + self.name@,
    {
        let mut s = String::new();
        if self.is_dir {
            s.append("\u{1F4C1} ");
            proof {
                reveal_strlit("\u{1F4C1} ");
            }
        } else {
            s.append("\u{1F4C4} ");
            proof {
                reveal_strlit("\u{1F4C4} ");
            }
        }
        s.append(self.name.as_str());
        s
    }
}

/// Orders a listing with the directories first, keeping the order of the
/// directories among themselves and of the files among themselves.
pub fn order_entries(entries: Vec<FileEntry>) -> (r: Vec<FileEntry>)
    ensures
        r@ == dirs_first(entries@),
        r@.len() == entries@.len(),
        forall|i: int, j: int| 0 <= i < j < r@.len() && #[trigger] r@[j].is_dir ==> #[trigger] r@[i].is_dir,
{
    let mut dirs: Vec<FileEntry> = Vec::new();
    let mut files: Vec<FileEntry> = Vec::new();
    let ghost pd = is_dir_entry();
    let ghost pf = is_file_entry();
    let mut i: usize = 0;
    while i < entries.len()
        invariant
            i <= entries@.len(),
            pd == is_dir_entry(),
            pf == is_file_entry(),
            dirs@ == entries@.subrange(0, i as int).filter(pd),
            files@ == entries@.subrange(0, i as int).filter(pf),
        decreases entries@.len() - i,
    {
        proof {
            assert(entries@.subrange(0, i + 1).drop_last() == entries@.subrange(0, i as int));
            assert(entries@.subrange(0, i + 1).last() == entries@[i as int]);
        }
        let e = entries[i].duplicate();
        proof {
            let s = entries@.subrange(0, i + 1);
            reveal(Seq::filter);
            assert(s.len() > 0);
            assert(s.last() == e);
            assert(s.filter(pd) == if e.is_dir {
                s.drop_last().filter(pd).push(e)
            } else {
                s.drop_last().filter(pd)
            });
            assert(s.filter(pf) == if e.is_dir {
                s.drop_last().filter(pf)
            } else {
                s.drop_last().filter(pf).push(e)
            });
        }
        if e.is_dir {
            dirs.push(e);
        } else {
            files.push(e);
        }
        i = i + 1;
    }
    proof {
        assert(entries@.subrange(0, entries@.len() as int) == entries@);
    }
    proof {
        lemma_dirs_before_files(entries@);
    }
    dirs.append(&mut files);
    dirs
}

/// A listing ordered directories first keeps every entry, and no
/// directory stands after a file in it.
pub proof fn lemma_dirs_before_files(s: Seq<FileEntry>)
    ensures
        dirs_first(s).len() == s.len(),
        forall|i: int, j: int|
            0 <= i < j < dirs_first(s).len() && #[trigger] dirs_first(s)[j].is_dir
                ==> #[trigger] dirs_first(s)[i].is_dir,
{
    let d = s.filter(is_dir_entry());
    let f = s.filter(is_file_entry());
    lemma_filter_split_len(s);
    assert forall|k: int| 0 <= k < d.len() implies d[k].is_dir by {
        s.lemma_filter_pred(is_dir_entry(), k);
    }
    assert forall|k: int| 0 <= k < f.len() implies !f[k].is_dir by {
        s.lemma_filter_pred(is_file_entry(), k);
    }
}

proof fn lemma_filter_split_len(s: Seq<FileEntry>)
    ensures
        s.filter(is_dir_entry()).len() + s.filter(is_file_entry()).len() == s.len(),
    decreases s.len(),
{
    reveal(Seq::filter);
    if s.len() > 0 {
        lemma_filter_split_len(s.drop_last());
    }
}

} // verus!

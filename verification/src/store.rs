//! The files of one logical path, held in memory.
//!
//! The store keeps the live file, the retired files in the order in which
//! they were retired, and the number of handles that are open on the live
//! file. Each operation of the rotation protocol is one method, and each
//! says what it needs of the handles: a file is renamed only while it is
//! closed, written only while it is open, and opened only while no handle is
//! out. Two switches make the rename or the append fail, as a full or
//! write-protected disk would.

use vstd::prelude::*;

use crate::text::texts;

verus! {

/// A retired file.
pub struct Archive {
    pub name: String,
    pub data: Vec<u8>,
}

/// A retired file, as a name and its bytes.
pub struct ArchiveView {
    pub name: Seq<char>,
    pub data: Seq<u8>,
}

impl View for Archive {
    type V = ArchiveView;

    open spec fn view(&self) -> ArchiveView {
        ArchiveView { name: self.name@, data: self.data@ }
    }
}

/// The files of one logical path.
pub struct Files {
    active: Vec<u8>,
    archives: Vec<Archive>,
    handles: u64,
    deny_rename: bool,
    deny_append: bool,
    deny_write: bool,
}

/// The files of one logical path, as a mathematical value.
pub struct FilesView {
    /// The bytes of the live file.
    pub active: Seq<u8>,
    /// The retired files, oldest first.
    pub archives: Seq<ArchiveView>,
    /// The handles that are open on the live file.
    pub handles: nat,
    /// Whether a rename fails.
    pub deny_rename: bool,
    /// Whether an append fails.
    pub deny_append: bool,
    /// Whether the write of a whole file fails.
    pub deny_write: bool,
}

/// The bytes of a list of retired files, one file after the other.
pub open spec fn stored(archives: Seq<ArchiveView>) -> Seq<u8>
    decreases archives.len(),
{
    if archives.len() == 0 {
        Seq::empty()
    } else {
        stored(archives.drop_last()) + archives.last().data
    }
}

impl FilesView {
    /// The names of the retired files, oldest first.
    pub open spec fn names(self) -> Seq<Seq<char>> {
        Seq::new(self.archives.len(), |i: int| self.archives[i].name)
    }

    /// Every byte that the files hold, in the order in which it was written:
    /// the retired files from the oldest on, then the live file.
    pub open spec fn journal(self) -> Seq<u8> {
        stored(self.archives) + self.active
    }

    /// The files once a handle on the live file was closed.
    pub open spec fn closed(self) -> FilesView {
        FilesView { handles: (self.handles - 1) as nat, ..self }
    }

    /// The files once the live file was opened.
    pub open spec fn opened(self) -> FilesView {
        FilesView { handles: self.handles + 1, ..self }
    }

    /// The files once the rename of the live file to `name` was tried: where
    /// it is denied nothing changes; else the live file becomes the youngest
    /// retired file and the logical path is free.
    pub open spec fn renamed(self, name: Seq<char>) -> FilesView {
        if self.deny_rename {
            self
        } else {
            FilesView {
                active: Seq::empty(),
                archives: self.archives.push(ArchiveView { name, data: self.active }),
                ..self
            }
        }
    }

    /// The files once the write of a file of the given name and bytes beside
    /// the retired files was tried: the file is there, youngest of all, and
    /// holds the bytes, or nothing where the write is denied.
    pub open spec fn with_file(self, name: Seq<char>, data: Seq<u8>) -> FilesView {
        FilesView {
            archives: self.archives.push(
                ArchiveView {
                    name,
                    data: if self.deny_write {
                        Seq::empty()
                    } else {
                        data
                    },
                },
            ),
            ..self
        }
    }

    /// The files once the retired file at index `at` was removed.
    pub open spec fn without_file(self, at: int) -> FilesView {
        FilesView { archives: self.archives.remove(at), ..self }
    }

    /// `at` is the index of the oldest retired file that bears `name`.
    pub open spec fn is_first_named(self, name: Seq<char>, at: int) -> bool {
        &&& 0 <= at < self.archives.len()
        &&& self.archives[at].name == name
        &&& forall|j: int| 0 <= j < at ==> self.archives[j].name != name
    }

    /// The files once the append of `bytes` was tried: where it is denied
    /// nothing changes; else the live file ends in `bytes`.
    pub open spec fn appended(self, bytes: Seq<u8>) -> FilesView {
        if self.deny_append {
            self
        } else {
            FilesView { active: self.active + bytes, ..self }
        }
    }
}

/// A rename takes no byte away and adds none.
pub proof fn lemma_rename_keeps_journal(files: FilesView, name: Seq<char>)
    ensures
        files.renamed(name).journal() == files.journal(),
{
    if !files.deny_rename {
        let retired = ArchiveView { name, data: files.active };
        assert(files.archives.push(retired).drop_last() == files.archives);
        assert(stored(files.archives.push(retired)) == stored(files.archives) + files.active);
        assert(files.renamed(name).journal() == files.journal());
    }
}

impl View for Files {
    type V = FilesView;

    closed spec fn view(&self) -> FilesView {
        FilesView {
            active: self.active@,
            archives: Seq::new(self.archives@.len(), |i: int| self.archives@[i]@),
            handles: self.handles as nat,
            deny_rename: self.deny_rename,
            deny_append: self.deny_append,
            deny_write: self.deny_write,
        }
    }
}

impl Files {
    /// No file yet, no handle out, nothing denied.
    pub open spec fn new_view() -> FilesView {
        FilesView {
            active: Seq::empty(),
            archives: Seq::empty(),
            handles: 0,
            deny_rename: false,
            deny_append: false,
            deny_write: false,
        }
    }

    /// A store that holds no file.
    pub fn new() -> (files: Files)
        ensures
            files@ == Files::new_view(),
    {
        let files = Files {
            active: Vec::new(),
            archives: Vec::new(),
            handles: 0,
            deny_rename: false,
            deny_append: false,
            deny_write: false,
        };
        assert(files@.archives =~= Seq::empty());
        files
    }

    /// Makes every later rename fail, or succeed again.
    pub fn set_deny_rename(&mut self, deny: bool)
        ensures
            final(self)@ == (FilesView { deny_rename: deny, ..old(self)@ }),
    {
        self.deny_rename = deny;
    }

    /// Makes every later append fail, or succeed again.
    pub fn set_deny_append(&mut self, deny: bool)
        ensures
            final(self)@ == (FilesView { deny_append: deny, ..old(self)@ }),
    {
        self.deny_append = deny;
    }

    /// Makes every later write of a whole file fail, or succeed again.
    pub fn set_deny_write(&mut self, deny: bool)
        ensures
            final(self)@ == (FilesView { deny_write: deny, ..old(self)@ }),
    {
        self.deny_write = deny;
    }

    /// The bytes of the live file.
    pub fn active(&self) -> (bytes: &Vec<u8>)
        ensures
            bytes@ == self@.active,
    {
        &self.active
    }

    /// The retired files, oldest first.
    pub fn archives(&self) -> (list: &Vec<Archive>)
        ensures
            list@.len() == self@.archives.len(),
            forall|i: int| 0 <= i < list@.len() ==> list@[i]@ == self@.archives[i],
    {
        &self.archives
    }

    /// The number of handles that are open on the live file.
    pub fn handles(&self) -> (count: u64)
        ensures
            count == self@.handles,
    {
        self.handles
    }

    /// The names of the retired files, oldest first.
    pub fn archive_names(&self) -> (names: Vec<String>)
        ensures
            texts(names@) == self@.names(),
    {
        let mut names: Vec<String> = Vec::new();
        let mut i: usize = 0;
        while i < self.archives.len()
            invariant
                i <= self.archives.len(),
                names@.len() == i,
                forall|j: int| 0 <= j < i ==> names@[j]@ == self.archives@[j].name@,
            decreases self.archives.len() - i,
        {
            names.push(self.archives[i].name.clone());
            i = i + 1;
        }
        assert(texts(names@) =~= self@.names());
        names
    }

    /// The index of the oldest retired file that bears `name`, if there is
    /// one.
    pub fn find(&self, name: &String) -> (found: Option<usize>)
        ensures
            found matches Some(at) ==> self@.is_first_named(name@, at as int),
            found is None ==> !self@.names().contains(name@),
    {
        let mut i: usize = 0;
        while i < self.archives.len()
            invariant
                i <= self.archives.len(),
                forall|j: int| 0 <= j < i ==> self@.archives[j].name != name@,
            decreases self.archives.len() - i,
        {
            if self.archives[i].name == *name {
                return Some(i);
            }
            i = i + 1;
        }
        assert forall|j: int| 0 <= j < self@.names().len() implies self@.names()[j] != name@ by {
            assert(self@.names()[j] == self@.archives[j].name);
        }
        None
    }

    /// The bytes of the retired file at index `at`.
    pub fn data_at(&self, at: usize) -> (data: &Vec<u8>)
        requires
            at < self@.archives.len(),
        ensures
            data@ == self@.archives[at as int].data,
    {
        &self.archives[at].data
    }

    /// Tries to write a file of the given name and bytes beside the retired
    /// files, and says whether that succeeded. A write that fails leaves the
    /// file behind, empty.
    pub fn write_file(&mut self, name: String, data: Vec<u8>) -> (written: bool)
        ensures
            written == !old(self)@.deny_write,
            final(self)@ == old(self)@.with_file(name@, data@),
    {
        if self.deny_write {
            self.archives.push(Archive { name, data: Vec::new() });
            assert(self@.archives =~= old(self)@.with_file(name@, data@).archives);
            return false;
        }
        self.archives.push(Archive { name, data });
        assert(self@.archives =~= old(self)@.with_file(name@, data@).archives);
        true
    }

    /// The number of retired files.
    pub fn count(&self) -> (count: usize)
        ensures
            count == self@.archives.len(),
    {
        self.archives.len()
    }

    /// Removes the retired file at index `at`.
    pub fn remove_file(&mut self, at: usize)
        requires
            at < old(self)@.archives.len(),
        ensures
            final(self)@ == old(self)@.without_file(at as int),
    {
        let _ = self.archives.remove(at);
        assert(self@.archives =~= old(self)@.without_file(at as int).archives);
    }

    /// Opens the live file, creating it where the path is free.
    pub fn open(&mut self)
        requires
            old(self)@.handles == 0,
        ensures
            final(self)@ == old(self)@.opened(),
    {
        self.handles = 1;
    }

    /// Closes the one handle on the live file.
    pub fn close(&mut self)
        requires
            old(self)@.handles == 1,
        ensures
            final(self)@ == old(self)@.closed(),
    {
        self.handles = 0;
    }

    /// Tries to rename the closed live file to `name`, and says whether that
    /// succeeded.
    pub fn rename_active(&mut self, name: String) -> (renamed: bool)
        requires
            old(self)@.handles == 0,
        ensures
            renamed == !old(self)@.deny_rename,
            final(self)@ == old(self)@.renamed(name@),
    {
        if self.deny_rename {
            return false;
        }
        let mut data: Vec<u8> = Vec::new();
        std::mem::swap(&mut data, &mut self.active);
        self.archives.push(Archive { name, data });
        assert(self@.archives =~= old(self)@.renamed(name@).archives);
        true
    }

    /// Tries to append `bytes` to the open live file, and says whether that
    /// succeeded.
    pub fn append(&mut self, bytes: &[u8]) -> (written: bool)
        requires
            old(self)@.handles == 1,
        ensures
            written == !old(self)@.deny_append,
            final(self)@ == old(self)@.appended(bytes@),
            final(self)@.active.len() <= usize::MAX,
    {
        if self.deny_append {
            assert(self.active.len() == self.active@.len());
            return false;
        }
        self.active.extend_from_slice(bytes);
        assert(self@.active =~= old(self)@.active + bytes@);
        assert(self.active.len() == self.active@.len());
        true
    }
}

} // verus!

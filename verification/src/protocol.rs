//! The filesystem protocol over the tree store: each request becomes a reply
//! value, and nothing here changes the store.
//!
//! Three errors exist: no such entry, is a directory, and not supported.
//! Whatever would change the cluster is refused as not supported, whatever
//! its arguments. Opening and releasing are acknowledged without any state
//! behind the handle.

use crate::resource::{attributes, FileAttr, FileKind, Inode, ResourceView};
use crate::store::{entries, KubeFS};
use crate::tree::TreeView;
use vstd::prelude::*;

verus! {

/// For how many seconds a client may keep what a reply told it.
pub const TTL: u64 = 1;

/// The generation number sent with every entry.
pub const GENERATION: u64 = 1;

/// The errors a reply can carry.
#[derive(Clone, Copy, Debug, PartialEq, Eq, Structural)]
pub enum Errno {
    /// No such entry.
    NoEntry,
    /// The operation is not supported.
    NotSupported,
    /// The entry is a directory.
    IsDirectory,
}

/// The reply to a successful lookup.
#[derive(Clone, Copy, Debug, PartialEq, Eq, Structural)]
pub struct EntryReply {
    pub ttl: u64,
    pub attr: FileAttr,
    pub generation: u64,
}

/// The reply to a successful request for attributes.
#[derive(Clone, Copy, Debug, PartialEq, Eq, Structural)]
pub struct AttrReply {
    pub ttl: u64,
    pub attr: FileAttr,
}

/// The reply to opening a file or a directory.
#[derive(Clone, Copy, Debug, PartialEq, Eq, Structural)]
pub struct OpenReply {
    pub fh: u64,
    pub flags: u32,
}

/// The reply to a request for filesystem statistics.
#[derive(Clone, Copy, Debug, PartialEq, Eq, Structural)]
pub struct StatfsReply {
    pub blocks: u64,
    pub bfree: u64,
    pub bavail: u64,
    pub files: u64,
    pub ffree: u64,
    pub bsize: u32,
    pub namelen: u32,
    pub frsize: u32,
}

/// The reply that describes a lock.
#[derive(Clone, Copy, Debug, PartialEq, Eq, Structural)]
pub struct LockReply {
    pub start: u64,
    pub end: u64,
    pub typ: u32,
    pub pid: u32,
}

/// One line of a directory listing. `offset` is the cursor to resume after
/// this entry: its position in the whole listing, counted from one.
#[derive(Debug)]
pub struct DirEntry {
    pub ino: Inode,
    pub offset: i64,
    pub kind: FileKind,
    pub name: String,
}

/// A `DirEntry` with its name as a sequence of characters.
pub struct DirEntryView {
    pub ino: Inode,
    pub offset: i64,
    pub kind: FileKind,
    pub name: Seq<char>,
}

impl View for DirEntry {
    type V = DirEntryView;

    open spec fn view(&self) -> DirEntryView {
        DirEntryView { ino: self.ino, offset: self.offset, kind: self.kind, name: self.name@ }
    }
}

/// The entries of `list` with each name as a sequence of characters.
pub open spec fn lines(list: Seq<DirEntry>) -> Seq<DirEntryView> {
    Seq::new(list.len(), |i: int| list[i]@)
}

/// The bytes every file reads as: the text "Hello World!" and a line feed.
pub open spec fn placeholder() -> Seq<u8> {
    seq![72u8, 101u8, 108u8, 108u8, 111u8, 32u8, 87u8, 111u8, 114u8, 108u8, 100u8, 33u8, 10u8]
}

/// The part of `data` that a read of `size` bytes at `offset` returns: from
/// `offset` on, at most `size` bytes, and nothing for an offset outside the
/// data.
pub open spec fn window(data: Seq<u8>, offset: int, size: int) -> Seq<u8> {
    if 0 <= offset < data.len() && 0 <= size {
        if offset + size < data.len() {
            data.subrange(offset, offset + size)
        } else {
            data.subrange(offset, data.len() as int)
        }
    } else {
        Seq::empty()
    }
}

/// What is left of `full` after the first `offset` entries: nothing once
/// `offset` reaches the length, and nothing for a negative offset.
pub open spec fn resume(full: Seq<DirEntryView>, offset: int) -> Seq<DirEntryView> {
    if 0 <= offset < full.len() {
        full.subrange(offset, full.len() as int)
    } else {
        Seq::empty()
    }
}

/// Whether `reply` is the error "not supported".
pub open spec fn refused<T>(reply: Result<T, Errno>) -> bool {
    reply matches Err(e) && e == Errno::NotSupported
}

impl TreeView {
    /// The reply to a lookup of `name` in `parent`.
    pub open spec fn lookup(self, parent: Inode, name: Seq<char>) -> Result<EntryReply, Errno> {
        match self.lookup_child(parent, name) {
            Some((ino, r)) => Ok(
                EntryReply { ttl: TTL, attr: attributes(ino, r.file_type), generation: GENERATION },
            ),
            None => Err(Errno::NoEntry),
        }
    }

    /// The reply to a request for the attributes of `ino`.
    pub open spec fn getattr(self, ino: Inode) -> Result<AttrReply, Errno> {
        match self.attributes_of(ino) {
            Some(attr) => Ok(AttrReply { ttl: TTL, attr }),
            None => Err(Errno::NoEntry),
        }
    }

    /// The entry at position `at` of the listing of `ino`, whose children
    /// are `kids`: the directory itself, then its parent, then the children.
    pub open spec fn line(
        self,
        ino: Inode,
        kids: Seq<(Inode, ResourceView)>,
        at: int,
    ) -> DirEntryView {
        if at == 0 {
            DirEntryView { ino, offset: 1, kind: FileKind::Directory, name: "."@ }
        } else if at == 1 {
            DirEntryView {
                ino: self.parent_of(ino),
                offset: 2,
                kind: FileKind::Directory,
                name: ".."@,
            }
        } else {
            DirEntryView {
                ino: kids[at - 2].0,
                offset: (at + 1) as i64,
                kind: kids[at - 2].1.file_type,
                name: kids[at - 2].1.name(),
            }
        }
    }

    /// The whole listing of `ino`, if `ino` answers for its children.
    pub open spec fn listing(self, ino: Inode) -> Option<Seq<DirEntryView>> {
        match self.children_of(ino) {
            Some(kids) => Some(Seq::new(kids.len() + 2, |at: int| self.line(ino, kids, at))),
            None => None,
        }
    }

    /// The reply to reading the directory `ino` from `offset` on.
    pub open spec fn readdir(self, ino: Inode, offset: i64) -> Result<Seq<DirEntryView>, Errno> {
        match self.listing(ino) {
            Some(full) => Ok(resume(full, offset as int)),
            None => Err(Errno::NoEntry),
        }
    }

    /// The reply to reading `size` bytes of `ino` at `offset`.
    pub open spec fn read(self, ino: Inode, offset: i64, size: u32) -> Result<Seq<u8>, Errno> {
        if !self.knows(ino) {
            Err(Errno::NoEntry)
        } else if self.kind_of(ino) == FileKind::Directory {
            Err(Errno::IsDirectory)
        } else {
            Ok(window(placeholder(), offset as int, size as int))
        }
    }
}

/// The bytes every file reads as.
pub fn placeholder_payload() -> (data: Vec<u8>)
    ensures
        data@ == placeholder(),
{
    let data: Vec<u8> = vec![72u8, 101u8, 108u8, 108u8, 111u8, 32u8, 87u8, 111u8, 114u8, 108u8, 100u8, 33u8, 10u8];
    assert(data@ =~= placeholder());
    data
}

/// Cuts the part out of `data` that a read of `size` bytes at `offset`
/// returns.
pub fn slice_payload(data: &Vec<u8>, offset: i64, size: u32) -> (part: Vec<u8>)
    ensures
        part@ == window(data@, offset as int, size as int),
{
    let mut part: Vec<u8> = Vec::new();
    if offset < 0 || offset as u64 >= data.len() as u64 {
        return part;
    }
    let start: usize = offset as usize;
    let room: usize = data.len() - start;
    let end: usize = if (size as u64) < (room as u64) {
        start + size as usize
    } else {
        data.len()
    };
    let mut i: usize = start;
    while i < end
        invariant
            start <= i <= end <= data.len(),
            part@ == data@.subrange(start as int, i as int),
        decreases end - i,
    {
        part.push(data[i]);
        assert(part@ =~= data@.subrange(start as int, i + 1));
        i += 1;
    }
    part
}

impl KubeFS {
    /// Looks `name` up in the directory `parent`: the entry's attributes
    /// with their validity, or "no such entry" where `parent` has no list
    /// or the list has no such name.
    pub fn lookup(&self, parent: Inode, name: &str) -> (reply: Result<EntryReply, Errno>)
        requires
            self@.wf(),
        ensures
            reply == self@.lookup(parent, name@),
    {
        match self.lookup_child(parent, name) {
            Some((ino, resource)) => {
                proof {
                    let at = choose|i: int| self@.first_named(parent, name@, i);
                    assert(self@.well_listed(parent));
                    assert(self@.resources.contains_key(self@.children[parent][at]));
                    assert(self@.well_kept(ino));
                }
                Ok(EntryReply { ttl: TTL, attr: resource.file_attr(), generation: GENERATION })
            },
            None => Err(Errno::NoEntry),
        }
    }

    /// The attributes of `ino` with their validity, or "no such entry" for
    /// an unknown inode.
    pub fn getattr(&self, ino: Inode) -> (reply: Result<AttrReply, Errno>)
        requires
            self@.wf(),
        ensures
            reply == self@.getattr(ino),
    {
        match self.attributes_of(ino) {
            Some(attr) => Ok(AttrReply { ttl: TTL, attr }),
            None => Err(Errno::NoEntry),
        }
    }

    /// Reads `size` bytes of the file `ino` at `offset`: a part of the
    /// placeholder, "no such entry" for an unknown inode, "is a directory"
    /// for a directory.
    pub fn read(&self, ino: Inode, offset: i64, size: u32) -> (reply: Result<Vec<u8>, Errno>)
        requires
            self@.wf(),
        ensures
            match reply {
                Ok(data) => self@.read(ino, offset, size) == Ok::<Seq<u8>, Errno>(data@),
                Err(e) => self@.read(ino, offset, size) == Err::<Seq<u8>, Errno>(e),
            },
    {
        match self.attributes_of(ino) {
            None => Err(Errno::NoEntry),
            Some(attr) => {
                if attr.kind == FileKind::Directory {
                    Err(Errno::IsDirectory)
                } else {
                    let data = placeholder_payload();
                    Ok(slice_payload(&data, offset, size))
                }
            },
        }
    }

    /// Lists the directory `ino` from `offset` on: the directory itself,
    /// its parent, then its children, each with the cursor to resume after
    /// it. An offset at or past the end lists nothing. An inode that does
    /// not answer for its children gives "no such entry".
    pub fn readdir(&self, ino: Inode, offset: i64) -> (reply: Result<Vec<DirEntry>, Errno>)
        requires
            self@.wf(),
        ensures
            match reply {
                Ok(list) => self@.readdir(ino, offset) == Ok::<Seq<DirEntryView>, Errno>(
                    lines(list@),
                ),
                Err(e) => self@.readdir(ino, offset) == Err::<Seq<DirEntryView>, Errno>(e),
            },
    {
        let kids = match self.children_of(ino) {
            Some(kids) => kids,
            None => {
                return Err(Errno::NoEntry);
            },
        };
        let parent = match self.parent_of(ino) {
            Some(parent) => parent,
            None => {
                proof {
                    if self@.children.contains_key(ino) {
                        assert(self@.well_listed(ino));
                    }
                }
                return Err(Errno::NoEntry);
            },
        };
        let ghost full = self@.listing(ino)->0;
        proof {
            if self@.children.contains_key(ino) {
                assert(self@.well_listed(ino));
            }
        }
        let mut list: Vec<DirEntry> = Vec::new();
        if offset < 0 {
            assert(lines(list@) =~= resume(full, offset as int));
            return Ok(list);
        }
        if offset == 0 {
            list.push(
                DirEntry { ino, offset: 1, kind: FileKind::Directory, name: ".".to_owned() },
            );
        }
        if offset <= 1 {
            list.push(
                DirEntry {
                    ino: parent,
                    offset: 2,
                    kind: FileKind::Directory,
                    name: "..".to_owned(),
                },
            );
        }
        let first: usize = if offset <= 2 {
            0
        } else if (offset - 2) as u64 >= kids.len() as u64 {
            kids.len()
        } else {
            (offset - 2) as usize
        };
        let ghost from: int = if offset < full.len() {
            offset as int
        } else {
            full.len() as int
        };
        assert(lines(list@) =~= full.subrange(from, first + 2));
        let mut i: usize = first;
        while i < kids.len()
            invariant
                first <= i <= kids.len(),
                kids@.len() + 2 == full.len(),
                full.len() <= i64::MAX,
                0 <= from <= first + 2,
                forall|at: int| 0 <= at < full.len() ==> full[at] == self@.line(ino, entries(kids@), at),
                lines(list@) == full.subrange(from, i + 2),
            decreases kids.len() - i,
        {
            let entry = DirEntry {
                ino: kids[i].0,
                offset: (i as u64 + 3) as i64,
                kind: kids[i].1.file_type,
                name: kids[i].1.name().clone(),
            };
            assert(entry@ == full[i + 2]) by {
                assert(full[i + 2] == self@.line(ino, entries(kids@), i + 2));
                assert(entries(kids@)[i as int] == (kids@[i as int].0, kids@[i as int].1@));
            }
            let ghost before = lines(list@);
            list.push(entry);
            assert(lines(list@) =~= before.push(entry@));
            assert(lines(list@) =~= full.subrange(from, i + 3));
            i += 1;
        }
        assert(lines(list@) =~= resume(full, offset as int));
        Ok(list)
    }

    /// Acknowledges the start of a session. Nothing is set up.
    pub fn init(&mut self) -> (started: Result<(), i32>)
        ensures
            started is Ok,
            final(self)@ == old(self)@,
    {
        Ok(())
    }

    /// Acknowledges the end of a session. Nothing is torn down.
    pub fn destroy(&mut self)
        ensures
            final(self)@ == old(self)@,
    {
    }

    /// Takes note that the kernel forgot `ino`. The store forgets nothing.
    pub fn forget(&mut self, ino: Inode, nlookup: u64)
        ensures
            final(self)@ == old(self)@,
    {
    }

    /// Opens the file `ino`: always granted, with no state behind the
    /// handle.
    pub fn open(&self, ino: Inode, flags: u32) -> (reply: OpenReply)
        ensures
            reply == (OpenReply { fh: 0, flags: 0 }),
    {
        OpenReply { fh: 0, flags: 0 }
    }

    /// Opens the directory `ino`: always granted, with no state behind the
    /// handle.
    pub fn opendir(&self, ino: Inode, flags: u32) -> (reply: OpenReply)
        ensures
            reply == (OpenReply { fh: 0, flags: 0 }),
    {
        OpenReply { fh: 0, flags: 0 }
    }

    /// Releases an open file: always acknowledged.
    pub fn release(&self, ino: Inode, fh: u64, flags: u32, lock_owner: u64, flush: bool) -> (reply:
        Result<(), Errno>)
        ensures
            reply is Ok,
    {
        Ok(())
    }

    /// Releases an open directory: always acknowledged.
    pub fn releasedir(&self, ino: Inode, fh: u64, flags: u32) -> (reply: Result<(), Errno>)
        ensures
            reply is Ok,
    {
        Ok(())
    }

    /// The statistics of the filesystem: no blocks and no files to give,
    /// blocks of 512 bytes, names of up to 255 bytes.
    pub fn statfs(&self, ino: Inode) -> (reply: StatfsReply)
        ensures
            reply == (StatfsReply {
                blocks: 0,
                bfree: 0,
                bavail: 0,
                files: 0,
                ffree: 0,
                bsize: 512,
                namelen: 255,
                frsize: 512,
            }),
    {
        StatfsReply {
            blocks: 0,
            bfree: 0,
            bavail: 0,
            files: 0,
            ffree: 0,
            bsize: 512,
            namelen: 255,
            frsize: 512,
        }
    }

    /// Changing attributes is not supported.
    pub fn setattr(
        &self,
        ino: Inode,
        mode: Option<u32>,
        uid: Option<u32>,
        gid: Option<u32>,
        size: Option<u64>,
        fh: Option<u64>,
        flags: Option<u32>,
    ) -> (reply: Result<AttrReply, Errno>)
        ensures
            refused(reply),
    {
        Err(Errno::NotSupported)
    }

    /// Reading a symbolic link is not supported.
    pub fn readlink(&self, ino: Inode) -> (reply: Result<Vec<u8>, Errno>)
        ensures
            refused(reply),
    {
        Err(Errno::NotSupported)
    }

    /// Creating a file node is not supported.
    pub fn mknod(&self, parent: Inode, name: &str, mode: u32, rdev: u32) -> (reply: Result<
        EntryReply,
        Errno,
    >)
        ensures
            refused(reply),
    {
        Err(Errno::NotSupported)
    }

    /// Creating a directory is not supported.
    pub fn mkdir(&self, parent: Inode, name: &str, mode: u32) -> (reply: Result<EntryReply, Errno>)
        ensures
            refused(reply),
    {
        Err(Errno::NotSupported)
    }

    /// Removing a file is not supported.
    pub fn unlink(&self, parent: Inode, name: &str) -> (reply: Result<(), Errno>)
        ensures
            refused(reply),
    {
        Err(Errno::NotSupported)
    }

    /// Removing a directory is not supported.
    pub fn rmdir(&self, parent: Inode, name: &str) -> (reply: Result<(), Errno>)
        ensures
            refused(reply),
    {
        Err(Errno::NotSupported)
    }

    /// Creating a symbolic link is not supported.
    pub fn symlink(&self, parent: Inode, name: &str, link: &str) -> (reply: Result<
        EntryReply,
        Errno,
    >)
        ensures
            refused(reply),
    {
        Err(Errno::NotSupported)
    }

    /// Renaming is not supported.
    pub fn rename(&self, parent: Inode, name: &str, newparent: Inode, newname: &str) -> (reply:
        Result<(), Errno>)
        ensures
            refused(reply),
    {
        Err(Errno::NotSupported)
    }

    /// Creating a hard link is not supported.
    pub fn link(&self, ino: Inode, newparent: Inode, newname: &str) -> (reply: Result<
        EntryReply,
        Errno,
    >)
        ensures
            refused(reply),
    {
        Err(Errno::NotSupported)
    }

    /// Writing is not supported.
    pub fn write(&self, ino: Inode, fh: u64, offset: i64, data: &[u8], flags: u32) -> (reply:
        Result<u32, Errno>)
        ensures
            refused(reply),
    {
        Err(Errno::NotSupported)
    }

    /// Flushing is not supported.
    pub fn flush(&self, ino: Inode, fh: u64, lock_owner: u64) -> (reply: Result<(), Errno>)
        ensures
            refused(reply),
    {
        Err(Errno::NotSupported)
    }

    /// Synchronising a file is not supported.
    pub fn fsync(&self, ino: Inode, fh: u64, datasync: bool) -> (reply: Result<(), Errno>)
        ensures
            refused(reply),
    {
        Err(Errno::NotSupported)
    }

    /// Synchronising a directory is not supported.
    pub fn fsyncdir(&self, ino: Inode, fh: u64, datasync: bool) -> (reply: Result<(), Errno>)
        ensures
            refused(reply),
    {
        Err(Errno::NotSupported)
    }

    /// Setting an extended attribute is not supported.
    pub fn setxattr(
        &self,
        ino: Inode,
        name: &str,
        value: &[u8],
        flags: u32,
        position: u32,
    ) -> (reply: Result<(), Errno>)
        ensures
            refused(reply),
    {
        Err(Errno::NotSupported)
    }

    /// Reading an extended attribute is not supported.
    pub fn getxattr(&self, ino: Inode, name: &str, size: u32) -> (reply: Result<Vec<u8>, Errno>)
        ensures
            refused(reply),
    {
        Err(Errno::NotSupported)
    }

    /// Listing extended attributes is not supported.
    pub fn listxattr(&self, ino: Inode, size: u32) -> (reply: Result<Vec<u8>, Errno>)
        ensures
            refused(reply),
    {
        Err(Errno::NotSupported)
    }

    /// Removing an extended attribute is not supported.
    pub fn removexattr(&self, ino: Inode, name: &str) -> (reply: Result<(), Errno>)
        ensures
            refused(reply),
    {
        Err(Errno::NotSupported)
    }

    /// Checking access rights is not supported.
    pub fn access(&self, ino: Inode, mask: u32) -> (reply: Result<(), Errno>)
        ensures
            refused(reply),
    {
        Err(Errno::NotSupported)
    }

    /// Creating and opening a file is not supported.
    pub fn create(&self, parent: Inode, name: &str, mode: u32, flags: u32) -> (reply: Result<
        (EntryReply, OpenReply),
        Errno,
    >)
        ensures
            refused(reply),
    {
        Err(Errno::NotSupported)
    }

    /// Testing for a lock is not supported.
    pub fn getlk(
        &self,
        ino: Inode,
        fh: u64,
        lock_owner: u64,
        start: u64,
        end: u64,
        typ: u32,
        pid: u32,
    ) -> (reply: Result<LockReply, Errno>)
        ensures
            refused(reply),
    {
        Err(Errno::NotSupported)
    }

    /// Taking or releasing a lock is not supported.
    pub fn setlk(
        &self,
        ino: Inode,
        fh: u64,
        lock_owner: u64,
        start: u64,
        end: u64,
        typ: u32,
        pid: u32,
        sleep: bool,
    ) -> (reply: Result<(), Errno>)
        ensures
            refused(reply),
    {
        Err(Errno::NotSupported)
    }

    /// Mapping a block of a file to the device is not supported.
    pub fn bmap(&self, ino: Inode, blocksize: u32, idx: u64) -> (reply: Result<u64, Errno>)
        ensures
            refused(reply),
    {
        Err(Errno::NotSupported)
    }

    /// Naming the volume is not supported.
    pub fn setvolname(&self, name: &str) -> (reply: Result<(), Errno>)
        ensures
            refused(reply),
    {
        Err(Errno::NotSupported)
    }

    /// Exchanging two entries is not supported.
    pub fn exchange(
        &self,
        parent: Inode,
        name: &str,
        newparent: Inode,
        newname: &str,
        options: u64,
    ) -> (reply: Result<(), Errno>)
        ensures
            refused(reply),
    {
        Err(Errno::NotSupported)
    }

    /// Reading the backup and creation times is not supported.
    pub fn getxtimes(&self, ino: Inode) -> (reply: Result<(u64, u64), Errno>)
        ensures
            refused(reply),
    {
        Err(Errno::NotSupported)
    }
}

} // verus!

//! What a filesystem entry stands for, and the inode derived from it.
//!
//! A resource is identified by its scope and its kind. Its inode is a hash of
//! exactly those two, moved out of the reserved inode numbers. The hash is the
//! standard library's default hasher, started from its fixed initial state, so
//! the same identity yields the same inode on every call. Two different
//! identities may still hash to the same inode: uniqueness is a matter of
//! probability (64 bits), not a guarantee, and the tree store is written to
//! stay consistent when it happens.

use std::collections::hash_map::DefaultHasher;
use std::hash::Hasher;
use vstd::prelude::*;
use vstd::std_specs::hash::DefaultHasherAdditionalSpecFns;
use vstd::utf8::encode_utf8;

verus! {

/// An inode number.
pub type Inode = u64;

/// The inode of the filesystem root.
pub const ROOT_INODE: Inode = 1;

/// The inode number that the protocol reads as "no entry".
pub const NO_INODE: Inode = 0;

/// How an entry renders in a directory listing.
#[derive(Clone, Copy, Debug, PartialEq, Eq, Structural)]
pub enum FileKind {
    File,
    Directory,
    Symlink,
}

/// Where a resource lives: in the cluster at large, or inside a namespace.
#[derive(Debug)]
pub enum Scope {
    Cluster { name: String },
    Namespaced { namespace: String, name: String },
}

/// A `Scope` with its strings as sequences of characters.
pub enum ScopeView {
    Cluster { name: Seq<char> },
    Namespaced { namespace: Seq<char>, name: Seq<char> },
}

impl View for Scope {
    type V = ScopeView;

    open spec fn view(&self) -> ScopeView {
        match *self {
            Scope::Cluster { name } => ScopeView::Cluster { name: name@ },
            Scope::Namespaced { namespace, name } => ScopeView::Namespaced {
                namespace: namespace@,
                name: name@,
            },
        }
    }
}

impl ScopeView {
    /// The name a resource of this scope shows in its directory: its own
    /// name, never qualified by the namespace.
    pub open spec fn name(self) -> Seq<char> {
        match self {
            ScopeView::Cluster { name } => name,
            ScopeView::Namespaced { namespace, name } => name,
        }
    }
}

/// One entry of the filesystem: a namespace or a pod.
#[derive(Debug)]
pub struct KubernetesResource {
    /// Where the resource lives, with its name.
    pub scope: Scope,
    /// The category of the resource, such as "namespace" or "pod".
    pub kind: String,
    /// Whether the resource renders as a directory or as a file.
    pub file_type: FileKind,
}

/// A `KubernetesResource` with its strings as sequences of characters.
pub struct ResourceView {
    pub scope: ScopeView,
    pub kind: Seq<char>,
    pub file_type: FileKind,
}

impl View for KubernetesResource {
    type V = ResourceView;

    open spec fn view(&self) -> ResourceView {
        ResourceView { scope: self.scope@, kind: self.kind@, file_type: self.file_type }
    }
}

/// The attributes reported for an entry. Times are seconds since the epoch.
#[derive(Clone, Copy, Debug, PartialEq, Eq, Structural)]
pub struct FileAttr {
    pub ino: Inode,
    pub size: u64,
    pub blocks: u64,
    pub atime: u64,
    pub mtime: u64,
    pub ctime: u64,
    pub crtime: u64,
    pub kind: FileKind,
    pub perm: u16,
    pub nlink: u32,
    pub uid: u32,
    pub gid: u32,
    pub rdev: u32,
    pub flags: u32,
    pub blksize: u32,
    pub padding: u32,
}

/// The kind of every namespace.
pub open spec fn namespace_kind() -> Seq<char> {
    "namespace"@
}

/// The kind of every pod.
pub open spec fn pod_kind() -> Seq<char> {
    "pod"@
}

/// The namespace called `name`: cluster-scoped, a directory.
pub open spec fn namespace_resource(name: Seq<char>) -> ResourceView {
    ResourceView {
        scope: ScopeView::Cluster { name },
        kind: namespace_kind(),
        file_type: FileKind::Directory,
    }
}

/// The pod called `name` in `namespace`: namespace-scoped, a file.
pub open spec fn pod_resource(namespace: Seq<char>, name: Seq<char>) -> ResourceView {
    ResourceView {
        scope: ScopeView::Namespaced { namespace, name },
        kind: pod_kind(),
        file_type: FileKind::File,
    }
}

/// Whether `ino` is one of the inode numbers that no resource may take.
pub open spec fn is_reserved(ino: Inode) -> bool {
    ino == ROOT_INODE || ino == NO_INODE
}

/// A raw hash moved out of the reserved inode numbers: 0 and 1 become 2 and
/// 3, every other value stays.
pub open spec fn avoid_reserved(raw: u64) -> Inode {
    if raw <= 1 {
        (raw + 2) as u64
    } else {
        raw
    }
}

/// The byte that closes each string fed to the hasher. No UTF-8 text holds it.
pub open spec fn terminator() -> Seq<u8> {
    seq![0xffu8]
}

/// What is written to the hasher for an identity, write by write: a tag for
/// the scope, then the scope's strings and the kind, each closed by the
/// terminator.
pub open spec fn hash_input(scope: ScopeView, kind: Seq<char>) -> Seq<Seq<u8>> {
    match scope {
        ScopeView::Cluster { name } => seq![
            seq![0u8],
            encode_utf8(name),
            terminator(),
            encode_utf8(kind),
            terminator(),
        ],
        ScopeView::Namespaced { namespace, name } => seq![
            seq![1u8],
            encode_utf8(namespace),
            terminator(),
            encode_utf8(name),
            terminator(),
            encode_utf8(kind),
            terminator(),
        ],
    }
}

/// The inode of a resource. It depends on the scope and the kind alone.
pub open spec fn identifier_of(r: ResourceView) -> Inode {
    avoid_reserved(DefaultHasher::spec_finish(hash_input(r.scope, r.kind)))
}

/// The attributes of the entry `ino` of kind `kind`. All but these two are
/// the same for every entry.
pub open spec fn attributes(ino: Inode, kind: FileKind) -> FileAttr {
    FileAttr {
        ino,
        size: 1,
        blocks: 1,
        atime: 0,
        mtime: 0,
        ctime: 0,
        crtime: 0,
        kind,
        perm: 0o774,
        nlink: 1,
        uid: 501,
        gid: 20,
        rdev: 0,
        flags: 0,
        blksize: 512,
        padding: 0,
    }
}

impl ResourceView {
    /// The name under which the resource is listed and looked up.
    pub open spec fn name(self) -> Seq<char> {
        self.scope.name()
    }

    /// Whether the resource is a namespace as `new_namespace` makes it.
    pub open spec fn is_namespace(self) -> bool {
        self == namespace_resource(self.name())
    }

    /// Whether the resource is a pod of `namespace` as `new_pod` makes it.
    pub open spec fn is_pod_of(self, namespace: Seq<char>) -> bool {
        self == pod_resource(namespace, self.name())
    }

    /// The inode of the directory that lists the resource: the root for a
    /// cluster-scoped resource, else the inode of its namespace.
    pub open spec fn parent(self) -> Inode {
        match self.scope {
            ScopeView::Cluster { name } => ROOT_INODE,
            ScopeView::Namespaced { namespace, name } => identifier_of(
                namespace_resource(namespace),
            ),
        }
    }
}

/// Builds the attribute record shared by all entries.
pub fn make_attributes(ino: Inode, kind: FileKind) -> (attr: FileAttr)
    ensures
        attr == attributes(ino, kind),
{
    FileAttr {
        ino,
        size: 1,
        blocks: 1,
        atime: 0,
        mtime: 0,
        ctime: 0,
        crtime: 0,
        kind,
        perm: 0o774,
        nlink: 1,
        uid: 501,
        gid: 20,
        rdev: 0,
        flags: 0,
        blksize: 512,
        padding: 0,
    }
}

/// The inode for a raw hash: the hash itself, moved out of the reserved
/// numbers.
pub fn inode_from_hash(raw: u64) -> (ino: Inode)
    ensures
        ino == avoid_reserved(raw),
        !is_reserved(ino),
{
    if raw <= 1 {
        raw + 2
    } else {
        raw
    }
}

/// Feeds one string to the hasher, closed by the terminator.
fn write_text(hasher: &mut DefaultHasher, text: &str)
    ensures
        final(hasher)@ == old(hasher)@.push(encode_utf8(text@)).push(terminator()),
{
    hasher.write(text.as_bytes());
    let end: [u8; 1] = [0xffu8];
    assert(end@ =~= terminator());
    hasher.write(end.as_slice());
}

impl Scope {
    /// The name a resource of this scope shows in its directory.
    pub fn name(&self) -> (name: &String)
        ensures
            name@ == self@.name(),
    {
        match self {
            Scope::Cluster { name } => name,
            Scope::Namespaced { namespace, name } => name,
        }
    }
}

impl Clone for Scope {
    fn clone(&self) -> (copy: Self)
        ensures
            copy == *self,
    {
        match self {
            Scope::Cluster { name } => Scope::Cluster { name: name.clone() },
            Scope::Namespaced { namespace, name } => Scope::Namespaced {
                namespace: namespace.clone(),
                name: name.clone(),
            },
        }
    }
}

impl Clone for KubernetesResource {
    fn clone(&self) -> (copy: Self)
        ensures
            copy == *self,
    {
        KubernetesResource {
            scope: self.scope.clone(),
            kind: self.kind.clone(),
            file_type: self.file_type,
        }
    }
}

impl KubernetesResource {
    /// The namespace called `name`.
    pub fn new_namespace(name: &str) -> (resource: KubernetesResource)
        ensures
            resource@ == namespace_resource(name@),
    {
        KubernetesResource {
            scope: Scope::Cluster { name: name.to_owned() },
            kind: "namespace".to_owned(),
            file_type: FileKind::Directory,
        }
    }

    /// The pod called `name` in the namespace called `namespace`.
    pub fn new_pod(namespace: &str, name: &str) -> (resource: KubernetesResource)
        ensures
            resource@ == pod_resource(namespace@, name@),
    {
        KubernetesResource {
            scope: Scope::Namespaced { namespace: namespace.to_owned(), name: name.to_owned() },
            kind: "pod".to_owned(),
            file_type: FileKind::File,
        }
    }

    /// The name under which the resource is listed and looked up.
    pub fn name(&self) -> (name: &String)
        ensures
            name@ == self@.name(),
    {
        self.scope.name()
    }

    /// The inode of the resource: the hash of its scope and kind, never a
    /// reserved number.
    pub fn inode(&self) -> (ino: Inode)
        ensures
            ino == identifier_of(self@),
            !is_reserved(ino),
    {
        let mut hasher = DefaultHasher::new();
        match &self.scope {
            Scope::Cluster { name } => {
                let tag: [u8; 1] = [0u8];
                assert(tag@ =~= seq![0u8]);
                hasher.write(tag.as_slice());
                write_text(&mut hasher, name.as_str());
            },
            Scope::Namespaced { namespace, name } => {
                let tag: [u8; 1] = [1u8];
                assert(tag@ =~= seq![1u8]);
                hasher.write(tag.as_slice());
                write_text(&mut hasher, namespace.as_str());
                write_text(&mut hasher, name.as_str());
            },
        }
        write_text(&mut hasher, self.kind.as_str());
        assert(hasher@ =~= hash_input(self@.scope, self@.kind));
        inode_from_hash(hasher.finish())
    }

    /// The inode of the directory that lists the resource: the root for a
    /// cluster-scoped resource, else the inode of its namespace.
    pub fn parent(&self) -> (ino: Inode)
        ensures
            ino == self@.parent(),
    {
        match &self.scope {
            Scope::Cluster { name } => ROOT_INODE,
            Scope::Namespaced { namespace, name } => KubernetesResource::new_namespace(
                namespace.as_str(),
            ).inode(),
        }
    }

    /// The attributes of the resource, under its own inode.
    pub fn file_attr(&self) -> (attr: FileAttr)
        ensures
            attr == attributes(identifier_of(self@), self@.file_type),
    {
        make_attributes(self.inode(), self.file_type)
    }
}

} // verus!

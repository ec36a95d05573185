//! The tree as a mathematical value: which resource each inode stands for,
//! and which inodes each directory lists.
//!
//! The root is no resource. It is the directory with the fixed inode
//! `ROOT_INODE`, and it lists the namespaces. A namespace lists its pods once
//! they were fetched; until then it has no list at all, which is how the tree
//! tells "not fetched yet" from "fetched, and empty".
//!
//! A resource is registered under its inode only while that inode is free.
//! A second resource with the same inode (the same name again, or a hash
//! collision) is left out, so an inode never changes what it stands for.
//! A list also stops growing at `MAX_ENTRIES`, the most entries whose
//! positions the protocol's signed 64-bit cursor can tell apart.

use crate::resource::{
    attributes, identifier_of, namespace_resource, pod_resource, FileAttr, FileKind, Inode,
    ResourceView, ROOT_INODE,
};
use vstd::prelude::*;

verus! {

/// The most entries a directory lists. With the two fixed entries in front,
/// the last cursor of a full directory is `i64::MAX`.
pub const MAX_ENTRIES: u64 = 0x7fff_ffff_ffff_fffd;

/// The state of the tree store.
pub struct TreeView {
    /// The resource behind each inode but the root's.
    pub resources: Map<Inode, ResourceView>,
    /// The inodes listed by each directory that has a list, in listing order.
    pub children: Map<Inode, Seq<Inode>>,
}

/// The namespaces called `names`, in order.
pub open spec fn namespaces_named(names: Seq<Seq<char>>) -> Seq<ResourceView> {
    Seq::new(names.len(), |i: int| namespace_resource(names[i]))
}

/// The pods of `namespace` called `names`, in order.
pub open spec fn pods_named(namespace: Seq<char>, names: Seq<Seq<char>>) -> Seq<ResourceView> {
    Seq::new(names.len(), |i: int| pod_resource(namespace, names[i]))
}

impl TreeView {
    /// The tree before any listing: a root that lists nothing.
    pub open spec fn empty() -> TreeView {
        TreeView {
            resources: Map::empty(),
            children: Map::empty().insert(ROOT_INODE, Seq::empty()),
        }
    }

    /// Whether `ino` names the root or a registered resource.
    pub open spec fn knows(self, ino: Inode) -> bool {
        ino == ROOT_INODE || self.resources.contains_key(ino)
    }

    /// How the known inode `ino` renders.
    pub open spec fn kind_of(self, ino: Inode) -> FileKind {
        if ino == ROOT_INODE {
            FileKind::Directory
        } else {
            self.resources[ino].file_type
        }
    }

    /// Whether `ino` is a namespace whose pods were not fetched yet.
    pub open spec fn awaits_pods(self, ino: Inode) -> bool {
        &&& self.resources.contains_key(ino)
        &&& self.resources[ino].is_namespace()
        &&& !self.children.contains_key(ino)
    }

    /// Whether the child `child` is of the form that the directory `dir`
    /// lists: namespaces under the root, and under a namespace its own pods.
    pub open spec fn fits(self, dir: Inode, child: ResourceView) -> bool {
        if dir == ROOT_INODE {
            child.is_namespace()
        } else {
            child.is_pod_of(self.resources[dir].name())
        }
    }

    /// Whether the resource behind `ino` is kept as it should be: under its
    /// own identifier, and listed by the directory it belongs to.
    pub open spec fn well_kept(self, ino: Inode) -> bool {
        let r = self.resources[ino];
        &&& ino == identifier_of(r)
        &&& self.children.contains_key(r.parent())
        &&& self.children[r.parent()].contains(ino)
    }

    /// Whether the list of `dir` is as it should be: `dir` is the root or a
    /// namespace, and it lists registered resources of the fitting form, each
    /// once, and no more than `MAX_ENTRIES` of them.
    pub open spec fn well_listed(self, dir: Inode) -> bool {
        let kids = self.children[dir];
        &&& dir == ROOT_INODE || (self.resources.contains_key(dir)
            && self.resources[dir].is_namespace())
        &&& kids.len() <= MAX_ENTRIES
        &&& kids.no_duplicates()
        &&& forall|i: int|
            0 <= i < kids.len() ==> self.resources.contains_key(#[trigger] kids[i]) && self.fits(
                dir,
                self.resources[kids[i]],
            )
    }

    /// The invariant of the tree store.
    pub open spec fn wf(self) -> bool {
        &&& self.children.contains_key(ROOT_INODE)
        &&& forall|ino: Inode| #[trigger]
            self.resources.contains_key(ino) ==> self.well_kept(ino)
        &&& forall|dir: Inode| #[trigger] self.children.contains_key(dir) ==> self.well_listed(dir)
    }

    /// The tree after `r` was offered to the directory `dir`: registered and
    /// listed last if its inode was free and the list had room, else nothing
    /// changes.
    pub open spec fn register(self, dir: Inode, r: ResourceView) -> TreeView {
        let ino = identifier_of(r);
        if self.resources.contains_key(ino) || self.children[dir].len() >= MAX_ENTRIES {
            self
        } else {
            TreeView {
                resources: self.resources.insert(ino, r),
                children: self.children.insert(dir, self.children[dir].push(ino)),
            }
        }
    }

    /// The tree after each of `rs` was offered to `dir`, first to last.
    pub open spec fn register_all(self, dir: Inode, rs: Seq<ResourceView>) -> TreeView
        decreases rs.len(),
    {
        if rs.len() == 0 {
            self
        } else {
            self.register_all(dir, rs.drop_last()).register(dir, rs.last())
        }
    }

    /// The tree after a listing of the cluster's namespaces came in.
    pub open spec fn with_namespaces(self, names: Seq<Seq<char>>) -> TreeView {
        self.register_all(ROOT_INODE, namespaces_named(names))
    }

    /// The tree after a listing of the pods of `ino` came in. Only a
    /// namespace that awaits its pods takes one.
    pub open spec fn with_pods(self, ino: Inode, names: Seq<Seq<char>>) -> TreeView {
        if self.awaits_pods(ino) {
            TreeView {
                resources: self.resources,
                children: self.children.insert(ino, Seq::empty()),
            }.register_all(ino, pods_named(self.resources[ino].name(), names))
        } else {
            self
        }
    }

    /// What `ino` lists, each entry with its resource: the list of a
    /// directory that has one, nothing for a file, and no answer for an
    /// unknown inode or a namespace that awaits its pods.
    pub open spec fn children_of(self, ino: Inode) -> Option<Seq<(Inode, ResourceView)>> {
        if self.children.contains_key(ino) {
            Some(
                Seq::new(
                    self.children[ino].len(),
                    |i: int| (self.children[ino][i], self.resources[self.children[ino][i]]),
                ),
            )
        } else if self.resources.contains_key(ino) && !self.resources[ino].is_namespace() {
            Some(Seq::empty())
        } else {
            None
        }
    }

    /// Whether position `i` of the list of `dir` is the first whose resource
    /// is called `name`.
    pub open spec fn first_named(self, dir: Inode, name: Seq<char>, i: int) -> bool {
        let kids = self.children[dir];
        &&& 0 <= i < kids.len()
        &&& self.resources[kids[i]].name() == name
        &&& forall|j: int| 0 <= j < i ==> self.resources[#[trigger] kids[j]].name() != name
    }

    /// The first entry of `dir` called `name`, if `dir` has a list and the
    /// list has such an entry.
    pub open spec fn lookup_child(self, dir: Inode, name: Seq<char>) -> Option<
        (Inode, ResourceView),
    > {
        if self.children.contains_key(dir) && exists|i: int| self.first_named(dir, name, i) {
            let i = choose|i: int| self.first_named(dir, name, i);
            Some((self.children[dir][i], self.resources[self.children[dir][i]]))
        } else {
            None
        }
    }

    /// The attributes of `ino`, if it is known.
    pub open spec fn attributes_of(self, ino: Inode) -> Option<FileAttr> {
        if self.knows(ino) {
            Some(attributes(ino, self.kind_of(ino)))
        } else {
            None
        }
    }

    /// The directory that lists the known inode `ino`. The root is its own
    /// parent.
    pub open spec fn parent_of(self, ino: Inode) -> Inode {
        if ino == ROOT_INODE {
            ROOT_INODE
        } else {
            self.resources[ino].parent()
        }
    }
}

/// At most one position of a list is the first with a given name.
pub proof fn lemma_first_named_unique(t: TreeView, dir: Inode, name: Seq<char>, i: int, j: int)
    requires
        t.first_named(dir, name, i),
        t.first_named(dir, name, j),
    ensures
        i == j,
{
    if i < j {
        assert(t.resources[t.children[dir][i]].name() != name);
    } else if j < i {
        assert(t.resources[t.children[dir][j]].name() != name);
    }
}

/// Offering a fitting resource to a directory that has a list keeps the
/// invariant, and keeps every list but that directory's.
pub proof fn lemma_register_keeps_wf(t: TreeView, dir: Inode, r: ResourceView)
    requires
        t.wf(),
        t.children.contains_key(dir),
        t.fits(dir, r),
    ensures
        t.register(dir, r).wf(),
        t.register(dir, r).children.dom() == t.children.dom(),
        forall|ino: Inode| #[trigger]
            t.resources.contains_key(ino) ==> t.register(dir, r).resources.contains_key(ino)
                && t.register(dir, r).resources[ino] == t.resources[ino],
{
    let ino = identifier_of(r);
    let u = t.register(dir, r);
    if !t.resources.contains_key(ino) && t.children[dir].len() < MAX_ENTRIES {
        let kids = t.children[dir];
        assert(t.well_listed(dir));
        assert(u.children.dom() =~= t.children.dom());
        // The new inode is in no list yet, and the directory is its parent.
        assert(!kids.contains(ino));
        assert(r.parent() == dir) by {
            if dir != ROOT_INODE {
                assert(t.well_kept(dir));
            }
        }
        assert(u.children[dir].last() == ino);
        assert forall|x: Inode| #[trigger] u.resources.contains_key(x) implies u.well_kept(x) by {
            if x != ino {
                assert(t.well_kept(x));
                let p = t.resources[x].parent();
                let at = choose|k: int| 0 <= k < t.children[p].len() && t.children[p][k] == x;
                if p == dir {
                    assert(u.children[p][at] == x);
                }
            } else {
                assert(u.children[dir][kids.len() as int] == ino);
            }
        }
        assert forall|d: Inode| #[trigger] u.children.contains_key(d) implies u.well_listed(
            d,
        ) by {
            assert(t.well_listed(d));
            let list = u.children[d];
            assert forall|i: int| 0 <= i < list.len() implies u.resources.contains_key(
                #[trigger] list[i],
            ) && u.fits(d, u.resources[list[i]]) by {
                if d == dir && i == kids.len() {
                } else {
                    assert(t.children[d][i] == list[i]);
                    assert(t.resources.contains_key(t.children[d][i]));
                }
            }
            if d == dir {
                assert forall|i: int, j: int|
                    0 <= i < list.len() && 0 <= j < list.len() && i != j implies list[i]
                    != list[j] by {
                    if i < kids.len() {
                        assert(kids[i] == list[i]);
                    }
                    if j < kids.len() {
                        assert(kids[j] == list[j]);
                    }
                }
            }
        }
    }
}

/// Offering fitting resources to a directory that has a list keeps the
/// invariant, every list but that directory's, and every resource that was
/// there.
pub proof fn lemma_register_all_keeps_wf(t: TreeView, dir: Inode, rs: Seq<ResourceView>)
    requires
        t.wf(),
        t.children.contains_key(dir),
        forall|i: int| 0 <= i < rs.len() ==> t.fits(dir, #[trigger] rs[i]),
    ensures
        t.register_all(dir, rs).wf(),
        t.register_all(dir, rs).children.dom() == t.children.dom(),
        forall|ino: Inode| #[trigger]
            t.resources.contains_key(ino) ==> t.register_all(dir, rs).resources.contains_key(ino)
                && t.register_all(dir, rs).resources[ino] == t.resources[ino],
    decreases rs.len(),
{
    if rs.len() > 0 {
        let before = t.register_all(dir, rs.drop_last());
        lemma_register_all_keeps_wf(t, dir, rs.drop_last());
        assert(t.fits(dir, rs[rs.len() - 1]));
        assert(before.fits(dir, rs.last())) by {
            if dir != ROOT_INODE {
                assert(t.well_listed(dir));
                assert(before.resources[dir] == t.resources[dir]);
            }
        }
        lemma_register_keeps_wf(before, dir, rs.last());
        let after = before.register(dir, rs.last());
        assert forall|ino: Inode| #[trigger] t.resources.contains_key(ino) implies after.resources.contains_key(
            ino,
        ) && after.resources[ino] == t.resources[ino] by {
            assert(before.resources.contains_key(ino));
        }
    }
}

/// Offering resources to a directory that has a list leaves every other list
/// and every registered resource as it was, and only adds to the end of that
/// directory's list.
pub proof fn lemma_register_all_only_adds(t: TreeView, dir: Inode, rs: Seq<ResourceView>)
    requires
        t.children.contains_key(dir),
    ensures
        t.register_all(dir, rs).children.dom() == t.children.dom(),
        forall|d: Inode|
            d != dir && t.children.contains_key(d) ==> #[trigger] t.register_all(
                dir,
                rs,
            ).children[d] == t.children[d],
        t.children[dir].is_prefix_of(t.register_all(dir, rs).children[dir]),
        forall|ino: Inode| #[trigger]
            t.resources.contains_key(ino) ==> t.register_all(dir, rs).resources.contains_key(ino)
                && t.register_all(dir, rs).resources[ino] == t.resources[ino],
    decreases rs.len(),
{
    if rs.len() > 0 {
        let before = t.register_all(dir, rs.drop_last());
        lemma_register_all_only_adds(t, dir, rs.drop_last());
        let after = before.register(dir, rs.last());
        assert(after.children.dom() =~= t.children.dom());
        assert forall|ino: Inode| #[trigger] t.resources.contains_key(ino) implies after.resources.contains_key(
            ino,
        ) && after.resources[ino] == t.resources[ino] by {
            assert(before.resources.contains_key(ino));
        }
    }
}

/// Two entries of one list with the same name are the same entry.
pub proof fn lemma_names_unique(t: TreeView, dir: Inode, i: int, j: int)
    requires
        t.wf(),
        t.children.contains_key(dir),
        0 <= i < t.children[dir].len(),
        0 <= j < t.children[dir].len(),
        t.resources[t.children[dir][i]].name() == t.resources[t.children[dir][j]].name(),
    ensures
        i == j,
{
    let kids = t.children[dir];
    assert(t.well_listed(dir));
    assert(t.resources.contains_key(kids[i]) && t.resources.contains_key(kids[j]));
    assert(t.well_kept(kids[i]) && t.well_kept(kids[j]));
    assert(t.resources[kids[i]] == t.resources[kids[j]]);
}

/// A listing of namespaces keeps the invariant.
pub proof fn lemma_with_namespaces_keeps_wf(t: TreeView, names: Seq<Seq<char>>)
    requires
        t.wf(),
    ensures
        t.with_namespaces(names).wf(),
{
    lemma_register_all_keeps_wf(t, ROOT_INODE, namespaces_named(names));
}

/// A listing of pods keeps the invariant.
pub proof fn lemma_with_pods_keeps_wf(t: TreeView, ino: Inode, names: Seq<Seq<char>>)
    requires
        t.wf(),
    ensures
        t.with_pods(ino, names).wf(),
{
    if t.awaits_pods(ino) {
        let opened = TreeView {
            resources: t.resources,
            children: t.children.insert(ino, Seq::empty()),
        };
        assert(opened.wf()) by {
            assert forall|x: Inode| #[trigger] opened.resources.contains_key(x) implies opened.well_kept(
                x,
            ) by {
                assert(t.well_kept(x));
            }
            assert forall|d: Inode| #[trigger] opened.children.contains_key(d) implies opened.well_listed(
                d,
            ) by {
                if d != ino {
                    assert(t.well_listed(d));
                }
            }
        }
        lemma_register_all_keeps_wf(opened, ino, pods_named(t.resources[ino].name(), names));
    }
}

/// The empty tree meets the invariant.
pub proof fn lemma_empty_wf()
    ensures
        TreeView::empty().wf(),
{
    let t = TreeView::empty();
    assert forall|d: Inode| #[trigger] t.children.contains_key(d) implies t.well_listed(d) by {
        assert(d == ROOT_INODE);
    }
}

} // verus!

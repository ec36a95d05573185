//! The tree store: the inodes that are known, what each stands for, and what
//! each directory lists.
//!
//! The store never talks to the cluster. Whoever drives it asks
//! `pending_fetch` which listing a directory still needs, fetches it, and
//! hands the outcome to `populate_namespace_filesystem`. A namespace takes one
//! listing in its life: once it has its list, `pending_fetch` never names it
//! again and later listings leave it alone. A failed fetch leaves no trace, so
//! the next request may try again.

use crate::resource::{
    identifier_of, make_attributes, FileAttr, FileKind, Inode, KubernetesResource, ResourceView,
    Scope, ROOT_INODE,
};
use crate::tree::{
    lemma_empty_wf, lemma_first_named_unique, lemma_with_namespaces_keeps_wf,
    lemma_with_pods_keeps_wf, namespaces_named, pods_named, TreeView, MAX_ENTRIES,
};
use std::collections::BTreeMap;
use vstd::prelude::*;

verus! {

/// Why a listing could not be fetched from the cluster.
#[derive(Clone, Copy, Debug, PartialEq, Eq, Structural)]
pub enum FetchError {
    /// The cluster could not be reached, or refused the credentials.
    Connection,
    /// The cluster knows no such namespace.
    NamespaceNotFound,
    /// The cluster answered with any other failure.
    Remote,
}

/// The store behind the filesystem.
pub struct KubeFS {
    filesystem: BTreeMap<Inode, KubernetesResource>,
    children: BTreeMap<Inode, Vec<Inode>>,
}

/// The strings of `names` as sequences of characters.
pub open spec fn texts(names: Seq<String>) -> Seq<Seq<char>> {
    Seq::new(names.len(), |i: int| names[i]@)
}

/// The entries of `pairs` with each resource as its view.
pub open spec fn entries(pairs: Seq<(Inode, KubernetesResource)>) -> Seq<(Inode, ResourceView)> {
    Seq::new(pairs.len(), |i: int| (pairs[i].0, pairs[i].1@))
}

spec fn resource_views(m: Map<Inode, KubernetesResource>) -> Map<Inode, ResourceView> {
    Map::new(|ino: Inode| m.contains_key(ino), |ino: Inode| m[ino]@)
}

spec fn list_views(m: Map<Inode, Vec<Inode>>) -> Map<Inode, Seq<Inode>> {
    Map::new(|ino: Inode| m.contains_key(ino), |ino: Inode| m[ino]@)
}

impl View for KubeFS {
    type V = TreeView;

    closed spec fn view(&self) -> TreeView {
        TreeView {
            resources: resource_views(self.filesystem@),
            children: list_views(self.children@),
        }
    }
}

impl KubeFS {
    /// The store of a cluster whose namespaces are `namespaces`: each is
    /// registered under the root, in order.
    pub fn new(namespaces: &Vec<String>) -> (fs: KubeFS)
        ensures
            fs@ == TreeView::empty().with_namespaces(texts(namespaces@)),
            fs@.wf(),
    {
        let mut children: BTreeMap<Inode, Vec<Inode>> = BTreeMap::new();
        children.insert(ROOT_INODE, Vec::new());
        let mut fs = KubeFS { filesystem: BTreeMap::new(), children };
        proof {
            lemma_empty_wf();
            assert(fs@.resources =~= TreeView::empty().resources);
            assert(fs@.children =~= TreeView::empty().children);
        }
        fs.populate_root_filesystem(namespaces);
        fs
    }

    /// The store for the outcome of the first listing of namespaces. Without
    /// that listing there is no store: the error is handed back.
    pub fn initialize(listing: Result<Vec<String>, FetchError>) -> (started: Result<
        KubeFS,
        FetchError,
    >)
        ensures
            match listing {
                Ok(namespaces) => started matches Ok(fs) && fs@ == TreeView::empty().with_namespaces(
                    texts(namespaces@),
                ) && fs@.wf(),
                Err(e) => started matches Err(f) && f == e,
            },
    {
        match listing {
            Ok(namespaces) => Ok(KubeFS::new(&namespaces)),
            Err(e) => Err(e),
        }
    }

    /// Offers `resource` to the directory whose list is held in `kids`:
    /// registers it and lists it last if its inode is free and the list has
    /// room.
    fn enlist(&mut self, kids: &mut Vec<Inode>, resource: KubernetesResource)
        ensures
            final(self).children == old(self).children,
            ({
                let ino = identifier_of(resource@);
                let held = old(self).filesystem@;
                if held.contains_key(ino) || old(kids)@.len() >= MAX_ENTRIES {
                    final(self).filesystem@ == held && final(kids)@ == old(kids)@
                } else {
                    final(self).filesystem@ == held.insert(ino, resource) && final(kids)@ == old(kids)@.push(
                        ino,
                    )
                }
            }),
    {
        let ino = resource.inode();
        if !self.filesystem.contains_key(&ino) && (kids.len() as u64) < MAX_ENTRIES {
            self.filesystem.insert(ino, resource);
            kids.push(ino);
        }
    }

    /// Takes a listing of the cluster's namespaces: each name not yet
    /// registered becomes a namespace under the root, in order.
    pub fn populate_root_filesystem(&mut self, namespaces: &Vec<String>)
        requires
            old(self)@.wf(),
        ensures
            final(self)@ == old(self)@.with_namespaces(texts(namespaces@)),
            final(self)@.wf(),
    {
        let ghost start = self@;
        let ghost rs = namespaces_named(texts(namespaces@));
        let mut kids: Vec<Inode> = match self.children.remove(&ROOT_INODE) {
            Some(kids) => kids,
            None => Vec::new(),
        };
        let ghost detached = self.children@;
        assert(start.children =~= list_views(detached).insert(ROOT_INODE, kids@));
        let mut i: usize = 0;
        while i < namespaces.len()
            invariant
                i <= namespaces.len(),
                rs == namespaces_named(texts(namespaces@)),
                self.children@ == detached,
                !detached.contains_key(ROOT_INODE),
                resource_views(self.filesystem@) == start.register_all(
                    ROOT_INODE,
                    rs.take(i as int),
                ).resources,
                start.register_all(ROOT_INODE, rs.take(i as int)).children == list_views(
                    detached,
                ).insert(ROOT_INODE, kids@),
            decreases namespaces.len() - i,
        {
            let resource = KubernetesResource::new_namespace(namespaces[i].as_str());
            let ghost before = start.register_all(ROOT_INODE, rs.take(i as int));
            let ghost held = self.filesystem@;
            self.enlist(&mut kids, resource);
            proof {
                let next = rs.take(i + 1);
                assert(next.drop_last() =~= rs.take(i as int));
                assert(next.last() == resource@);
                let after = before.register(ROOT_INODE, resource@);
                assert(start.register_all(ROOT_INODE, next) == after);
                assert(held.contains_key(identifier_of(resource@))
                    == before.resources.contains_key(identifier_of(resource@)));
                assert(resource_views(self.filesystem@) =~= after.resources);
                assert(after.children =~= list_views(detached).insert(ROOT_INODE, kids@));
            }
            i += 1;
        }
        self.children.insert(ROOT_INODE, kids);
        proof {
            assert(rs.take(rs.len() as int) =~= rs);
            let end = start.register_all(ROOT_INODE, rs);
            assert(self@.children =~= end.children);
            lemma_with_namespaces_keeps_wf(start, texts(namespaces@));
        }
    }

    /// The name of the namespace whose pods must be listed before the
    /// directory `ino` can be read: the name of `ino` if it is a namespace
    /// that awaits its pods, else nothing.
    pub fn pending_fetch(&self, ino: Inode) -> (namespace: Option<String>)
        requires
            self@.wf(),
        ensures
            match namespace {
                Some(name) => self@.awaits_pods(ino) && name@ == self@.resources[ino].name(),
                None => !self@.awaits_pods(ino),
            },
    {
        match self.filesystem.get(&ino) {
            None => None,
            Some(resource) => {
                proof {
                    assert(self@.resources.contains_key(ino));
                    assert(self@.well_kept(ino));
                    assert(self@.well_listed(resource@.parent()));
                }
                match &resource.scope {
                    Scope::Cluster { name } => {
                        if self.children.contains_key(&ino) {
                            assert(self@.children.contains_key(ino));
                            None
                        } else {
                            assert(!self@.children.contains_key(ino));
                            Some(name.clone())
                        }
                    },
                    Scope::Namespaced { namespace, name } => None,
                }
            },
        }
    }

    /// Takes the outcome of listing the pods of `namespace_inode`. A listing
    /// for a namespace that awaits its pods gives it its list: each name
    /// becomes a pod, in order. A listing for any other inode changes
    /// nothing, and neither does a failed fetch, whose error is handed back.
    pub fn populate_namespace_filesystem(
        &mut self,
        namespace_inode: Inode,
        listing: Result<Vec<String>, FetchError>,
    ) -> (outcome: Result<(), FetchError>)
        requires
            old(self)@.wf(),
        ensures
            final(self)@.wf(),
            match listing {
                Ok(pods) => outcome is Ok && final(self)@ == old(self)@.with_pods(
                    namespace_inode,
                    texts(pods@),
                ),
                Err(e) => outcome == Err::<(), FetchError>(e) && final(self)@ == old(self)@,
            },
    {
        let pods = match listing {
            Ok(pods) => pods,
            Err(e) => {
                return Err(e);
            },
        };
        let namespace = match self.pending_fetch(namespace_inode) {
            Some(namespace) => namespace,
            None => {
                return Ok(());
            },
        };
        let ghost start = TreeView {
            resources: self@.resources,
            children: self@.children.insert(namespace_inode, Seq::empty()),
        };
        let ghost rs = pods_named(namespace@, texts(pods@));
        let ghost detached = self.children@;
        let mut kids: Vec<Inode> = Vec::new();
        assert(start.children =~= list_views(detached).insert(namespace_inode, kids@));
        let mut i: usize = 0;
        while i < pods.len()
            invariant
                i <= pods.len(),
                rs == pods_named(namespace@, texts(pods@)),
                self.children@ == detached,
                !detached.contains_key(namespace_inode),
                resource_views(self.filesystem@) == start.register_all(
                    namespace_inode,
                    rs.take(i as int),
                ).resources,
                start.register_all(namespace_inode, rs.take(i as int)).children == list_views(
                    detached,
                ).insert(namespace_inode, kids@),
            decreases pods.len() - i,
        {
            let resource = KubernetesResource::new_pod(namespace.as_str(), pods[i].as_str());
            let ghost before = start.register_all(namespace_inode, rs.take(i as int));
            let ghost held = self.filesystem@;
            self.enlist(&mut kids, resource);
            proof {
                let next = rs.take(i + 1);
                assert(next.drop_last() =~= rs.take(i as int));
                assert(next.last() == resource@);
                let after = before.register(namespace_inode, resource@);
                assert(start.register_all(namespace_inode, next) == after);
                assert(held.contains_key(identifier_of(resource@))
                    == before.resources.contains_key(identifier_of(resource@)));
                assert(resource_views(self.filesystem@) =~= after.resources);
                assert(after.children =~= list_views(detached).insert(namespace_inode, kids@));
            }
            i += 1;
        }
        self.children.insert(namespace_inode, kids);
        proof {
            assert(rs.take(rs.len() as int) =~= rs);
            let end = start.register_all(namespace_inode, rs);
            assert(self@.children =~= end.children);
            lemma_with_pods_keeps_wf(old(self)@, namespace_inode, texts(pods@));
        }
        Ok(())
    }

    /// What `id` lists, each entry with its inode and its resource: the list
    /// of the root or of a namespace that has its pods, nothing for a file,
    /// and no answer for an unknown inode or a namespace that awaits its pods.
    pub fn children_of(&self, id: Inode) -> (listed: Option<Vec<(Inode, KubernetesResource)>>)
        requires
            self@.wf(),
        ensures
            match listed {
                Some(pairs) => self@.children_of(id) == Some(entries(pairs@)),
                None => self@.children_of(id) is None,
            },
    {
        match self.children.get(&id) {
            Some(kids) => {
                assert(self@.children.contains_key(id) && self@.children[id] == kids@);
                assert(self@.well_listed(id));
                let mut pairs: Vec<(Inode, KubernetesResource)> = Vec::new();
                let mut i: usize = 0;
                while i < kids.len()
                    invariant
                        i <= kids.len(),
                        self@.children.contains_key(id),
                        self@.children[id] == kids@,
                        self@.well_listed(id),
                        pairs@.len() == i,
                        forall|j: int|
                            0 <= j < i ==> (#[trigger] pairs@[j]).0 == kids@[j] && pairs@[j].1@
                                == self@.resources[kids@[j]],
                    decreases kids.len() - i,
                {
                    let ino = kids[i];
                    assert(self@.resources.contains_key(kids@[i as int]));
                    match self.filesystem.get(&ino) {
                        Some(resource) => {
                            pairs.push((ino, resource.clone()));
                        },
                        None => {
                            assert(false);
                        },
                    }
                    i += 1;
                }
                assert(entries(pairs@) =~= self@.children_of(id)->0);
                Some(pairs)
            },
            None => {
                assert(!self@.children.contains_key(id));
                match self.filesystem.get(&id) {
                    Some(resource) => {
                        proof {
                            assert(self@.resources.contains_key(id));
                            assert(self@.well_kept(id));
                            assert(self@.well_listed(resource@.parent()));
                        }
                        match &resource.scope {
                            Scope::Cluster { name } => None,
                            Scope::Namespaced { namespace, name } => {
                                let pairs: Vec<(Inode, KubernetesResource)> = Vec::new();
                                assert(entries(pairs@) =~= Seq::empty());
                                Some(pairs)
                            },
                        }
                    },
                    None => {
                        assert(!self@.resources.contains_key(id));
                        None
                    },
                }
            },
        }
    }

    /// The first entry of `parent_id` called `name`, with its inode and its
    /// resource, if `parent_id` has a list and the list has such an entry.
    pub fn lookup_child(&self, parent_id: Inode, name: &str) -> (found: Option<
        (Inode, KubernetesResource),
    >)
        requires
            self@.wf(),
        ensures
            match found {
                Some((ino, resource)) => self@.lookup_child(parent_id, name@) == Some(
                    (ino, resource@),
                ),
                None => self@.lookup_child(parent_id, name@) is None,
            },
    {
        let wanted: String = name.to_owned();
        match self.children.get(&parent_id) {
            None => None,
            Some(kids) => {
                assert(self@.children.contains_key(parent_id) && self@.children[parent_id]
                    == kids@);
                assert(self@.well_listed(parent_id));
                let mut i: usize = 0;
                while i < kids.len()
                    invariant
                        i <= kids.len(),
                        wanted@ == name@,
                        self@.children.contains_key(parent_id),
                        self@.children[parent_id] == kids@,
                        self@.well_listed(parent_id),
                        forall|j: int|
                            0 <= j < i ==> self@.resources[#[trigger] kids@[j]].name() != name@,
                    decreases kids.len() - i,
                {
                    let ino = kids[i];
                    assert(self@.resources.contains_key(kids@[i as int]));
                    match self.filesystem.get(&ino) {
                        Some(resource) => {
                            if *resource.name() == wanted {
                                proof {
                                    assert(self@.first_named(parent_id, name@, i as int));
                                    let at = choose|k: int|
                                        self@.first_named(parent_id, name@, k);
                                    lemma_first_named_unique(
                                        self@,
                                        parent_id,
                                        name@,
                                        at,
                                        i as int,
                                    );
                                }
                                return Some((ino, resource.clone()));
                            }
                        },
                        None => {
                            assert(false);
                        },
                    }
                    i += 1;
                }
                assert(forall|k: int| !self@.first_named(parent_id, name@, k));
                None
            },
        }
    }

    /// The directory that lists `id`, if `id` is known. The root is its own
    /// parent.
    pub fn parent_of(&self, id: Inode) -> (parent: Option<Inode>)
        ensures
            match parent {
                Some(dir) => self@.knows(id) && dir == self@.parent_of(id),
                None => !self@.knows(id),
            },
    {
        if id == ROOT_INODE {
            Some(ROOT_INODE)
        } else {
            match self.filesystem.get(&id) {
                Some(resource) => {
                    assert(self@.resources.contains_key(id));
                    Some(resource.parent())
                },
                None => {
                    assert(!self@.resources.contains_key(id));
                    None
                },
            }
        }
    }

    /// The attributes of `id`, if it is known: those of a directory for the
    /// root, else those of the resource behind `id`.
    pub fn attributes_of(&self, id: Inode) -> (attr: Option<FileAttr>)
        requires
            self@.wf(),
        ensures
            attr == self@.attributes_of(id),
    {
        if id == ROOT_INODE {
            Some(make_attributes(ROOT_INODE, FileKind::Directory))
        } else {
            match self.filesystem.get(&id) {
                Some(resource) => {
                    proof {
                        assert(self@.resources.contains_key(id));
                        assert(self@.well_kept(id));
                    }
                    Some(resource.file_attr())
                },
                None => {
                    assert(!self@.resources.contains_key(id));
                    None
                },
            }
        }
    }
}

} // verus!

//! What holds of the library as a whole, proved from the definitions that the
//! functions' contracts are stated in.

use crate::protocol::{resume, DirEntryView, Errno};
use crate::resource::{
    hash_input, identifier_of, is_reserved, Inode, ResourceView, ScopeView, ROOT_INODE,
};
use crate::tree::{
    lemma_first_named_unique, lemma_names_unique, lemma_register_all_only_adds, namespaces_named,
    pods_named, TreeView,
};
use vstd::prelude::*;
use vstd::utf8::encode_utf8_decode_utf8;

verus! {

/// The inode is a function of the scope and the kind: two resources that
/// agree on both have the same inode, whatever else they hold.
pub proof fn law_identifier_is_deterministic(a: ResourceView, b: ResourceView)
    requires
        a.scope == b.scope,
        a.kind == b.kind,
    ensures
        identifier_of(a) == identifier_of(b),
{
}

/// No resource takes the inode of the root or the "no entry" number.
pub proof fn law_identifier_is_never_reserved(r: ResourceView)
    ensures
        !is_reserved(identifier_of(r)),
{
}

/// Two identities that differ are hashed from input that differs, so only a
/// collision of the hash itself can give two resources one inode.
pub proof fn law_hash_input_tells_identities_apart(
    scope_a: ScopeView,
    kind_a: Seq<char>,
    scope_b: ScopeView,
    kind_b: Seq<char>,
)
    requires
        hash_input(scope_a, kind_a) == hash_input(scope_b, kind_b),
    ensures
        scope_a == scope_b,
        kind_a == kind_b,
{
    let a = hash_input(scope_a, kind_a);
    let b = hash_input(scope_b, kind_b);
    assert(a.len() == b.len());
    match (scope_a, scope_b) {
        (ScopeView::Cluster { name: name_a }, ScopeView::Cluster { name: name_b }) => {
            assert(a[1] == b[1] && a[3] == b[3]);
            encode_utf8_decode_utf8(name_a);
            encode_utf8_decode_utf8(name_b);
        },
        (
            ScopeView::Namespaced { namespace: space_a, name: name_a },
            ScopeView::Namespaced { namespace: space_b, name: name_b },
        ) => {
            assert(a[1] == b[1] && a[3] == b[3] && a[5] == b[5]);
            encode_utf8_decode_utf8(space_a);
            encode_utf8_decode_utf8(space_b);
            encode_utf8_decode_utf8(name_a);
            encode_utf8_decode_utf8(name_b);
        },
        _ => {},
    }
    encode_utf8_decode_utf8(kind_a);
    encode_utf8_decode_utf8(kind_b);
}

/// A namespace that awaits its pods has its list once a listing came in, and
/// awaits nothing from then on.
pub proof fn law_namespace_is_listed_once(t: TreeView, namespace: Inode, names: Seq<Seq<char>>)
    requires
        t.wf(),
        t.awaits_pods(namespace),
    ensures
        !t.with_pods(namespace, names).awaits_pods(namespace),
        t.with_pods(namespace, names).children_of(namespace) is Some,
{
    let opened = TreeView {
        resources: t.resources,
        children: t.children.insert(namespace, Seq::empty()),
    };
    lemma_register_all_only_adds(opened, namespace, pods_named(t.resources[namespace].name(), names));
}

/// A listing of pods changes no answer that was there: what an inode lists,
/// once it lists anything, stays as it is whichever namespace takes a
/// listing, the same one again included.
pub proof fn law_lists_survive_pod_listings(
    t: TreeView,
    ino: Inode,
    namespace: Inode,
    names: Seq<Seq<char>>,
)
    requires
        t.wf(),
        t.children_of(ino) is Some,
    ensures
        t.with_pods(namespace, names).children_of(ino) == t.children_of(ino),
{
    if t.awaits_pods(namespace) {
        let opened = TreeView {
            resources: t.resources,
            children: t.children.insert(namespace, Seq::empty()),
        };
        let after = t.with_pods(namespace, names);
        lemma_register_all_only_adds(
            opened,
            namespace,
            pods_named(t.resources[namespace].name(), names),
        );
        assert(ino != namespace);
        if t.children.contains_key(ino) {
            assert(t.well_listed(ino));
            assert(after.children[ino] == t.children[ino]);
            assert forall|i: int| 0 <= i < t.children[ino].len() implies after.resources[t.children[ino][i]]
                == t.resources[t.children[ino][i]] by {
                assert(opened.resources.contains_key(t.children[ino][i]));
            }
            assert(after.children_of(ino)->0 =~= t.children_of(ino)->0);
        } else {
            assert(opened.resources.contains_key(ino));
            assert(!after.children.contains_key(ino));
        }
    }
}

/// A listing of namespaces changes no answer but the root's.
pub proof fn law_lists_survive_namespace_listings(t: TreeView, ino: Inode, names: Seq<Seq<char>>)
    requires
        t.wf(),
        ino != ROOT_INODE,
        t.children_of(ino) is Some,
    ensures
        t.with_namespaces(names).children_of(ino) == t.children_of(ino),
{
    let after = t.with_namespaces(names);
    lemma_register_all_only_adds(t, ROOT_INODE, namespaces_named(names));
    if t.children.contains_key(ino) {
        assert(t.well_listed(ino));
        assert(after.children[ino] == t.children[ino]);
        assert forall|i: int| 0 <= i < t.children[ino].len() implies after.resources[t.children[ino][i]]
            == t.resources[t.children[ino][i]] by {
            assert(t.resources.contains_key(t.children[ino][i]));
        }
        assert(after.children_of(ino)->0 =~= t.children_of(ino)->0);
    } else {
        assert(t.resources.contains_key(ino));
        assert(!after.children.contains_key(ino));
    }
}

/// A listing of namespaces only adds to the end of what the root lists: the
/// entries that were there keep their places.
pub proof fn law_root_list_only_grows(t: TreeView, names: Seq<Seq<char>>)
    requires
        t.wf(),
    ensures
        t.children[ROOT_INODE].is_prefix_of(t.with_namespaces(names).children[ROOT_INODE]),
{
    lemma_register_all_only_adds(t, ROOT_INODE, namespaces_named(names));
}

/// Every child that a directory's listing shows is found by a lookup of its
/// name in that directory, under the inode that the listing showed.
pub proof fn law_listed_entry_is_found(t: TreeView, dir: Inode, at: int)
    requires
        t.wf(),
        t.listing(dir) is Some,
        2 <= at < t.listing(dir)->0.len(),
    ensures
        t.lookup(dir, t.listing(dir)->0[at].name) matches Ok(entry) && entry.attr.ino == t.listing(
            dir,
        )->0[at].ino,
{
    let name = t.listing(dir)->0[at].name;
    let kids = t.children[dir];
    let i = at - 2;
    assert(t.children.contains_key(dir));
    assert(t.resources[kids[i]].name() == name);
    assert forall|j: int| 0 <= j < i implies t.resources[#[trigger] kids[j]].name() != name by {
        if t.resources[kids[j]].name() == name {
            lemma_names_unique(t, dir, i, j);
        }
    }
    assert(t.first_named(dir, name, i));
    let found = choose|k: int| t.first_named(dir, name, k);
    lemma_first_named_unique(t, dir, name, found, i);
}

/// Reading a directory at or past the end of its listing gives no entry and
/// no error.
pub proof fn law_listing_ends_cleanly(t: TreeView, ino: Inode, offset: i64)
    requires
        t.listing(ino) is Some,
        offset >= t.listing(ino)->0.len(),
    ensures
        t.readdir(ino, offset) == Ok::<Seq<DirEntryView>, Errno>(Seq::empty()),
{
}

/// Reading a directory from the cursor of one of its entries gives exactly
/// the entries after that one, so a listing read in pieces is the listing.
pub proof fn law_listing_resumes_after_cursor(t: TreeView, ino: Inode, at: int)
    requires
        t.wf(),
        t.listing(ino) is Some,
        0 <= at < t.listing(ino)->0.len(),
    ensures
        t.readdir(ino, t.listing(ino)->0[at].offset) == Ok::<Seq<DirEntryView>, Errno>(
            t.listing(ino)->0.subrange(at + 1, t.listing(ino)->0.len() as int),
        ),
{
    let full = t.listing(ino)->0;
    if t.children.contains_key(ino) {
        assert(t.well_listed(ino));
    }
    assert(full[at].offset == at + 1);
    assert(resume(full, at + 1) =~= full.subrange(at + 1, full.len() as int));
}

/// A resource is listed by one directory only, and once: whichever list
/// shows an inode, it is the list of that resource's parent, at one place.
pub proof fn law_single_owner(t: TreeView, dir_a: Inode, i: int, dir_b: Inode, j: int)
    requires
        t.wf(),
        t.children.contains_key(dir_a),
        t.children.contains_key(dir_b),
        0 <= i < t.children[dir_a].len(),
        0 <= j < t.children[dir_b].len(),
        t.children[dir_a][i] == t.children[dir_b][j],
    ensures
        dir_a == dir_b,
        i == j,
        dir_a == t.parent_of(t.children[dir_a][i]),
{
    let ino = t.children[dir_a][i];
    assert(t.well_listed(dir_a));
    assert(t.well_listed(dir_b));
    assert(t.resources.contains_key(ino));
    assert(t.well_kept(ino));
    let r = t.resources[ino];
    assert(r.parent() == dir_a) by {
        if dir_a != ROOT_INODE {
            assert(t.well_kept(dir_a));
        }
    }
    assert(r.parent() == dir_b) by {
        if dir_b != ROOT_INODE {
            assert(t.well_kept(dir_b));
        }
    }
}

} // verus!

use kubefs::resource::{
    inode_from_hash, make_attributes, FileKind, KubernetesResource, Scope, NO_INODE, ROOT_INODE,
};
use std::collections::hash_map::DefaultHasher;
use std::collections::HashSet;
use std::hash::Hasher;

fn hash_of(bytes: &[u8]) -> u64 {
    let mut hasher = DefaultHasher::new();
    hasher.write(bytes);
    hasher.finish()
}

#[test]
fn reserved_hashes_are_moved() {
    assert_eq!(inode_from_hash(0), 2);
    assert_eq!(inode_from_hash(1), 3);
    assert_eq!(inode_from_hash(2), 2);
    assert_eq!(inode_from_hash(3), 3);
    assert_eq!(inode_from_hash(4), 4);
    assert_eq!(inode_from_hash(u64::MAX), u64::MAX);
}

#[test]
fn namespace_is_a_cluster_scoped_directory() {
    let ns = KubernetesResource::new_namespace("default");
    assert!(matches!(&ns.scope, Scope::Cluster { name } if name == "default"));
    assert_eq!(ns.kind, "namespace");
    assert_eq!(ns.file_type, FileKind::Directory);
    assert_eq!(ns.name(), "default");
    assert_eq!(ns.parent(), ROOT_INODE);
}

#[test]
fn pod_is_a_namespaced_file() {
    let pod = KubernetesResource::new_pod("default", "web-1");
    assert!(matches!(
        &pod.scope,
        Scope::Namespaced { namespace, name } if namespace == "default" && name == "web-1"
    ));
    assert_eq!(pod.kind, "pod");
    assert_eq!(pod.file_type, FileKind::File);
    assert_eq!(pod.name(), "web-1");
    assert_eq!(pod.parent(), KubernetesResource::new_namespace("default").inode());
}

#[test]
fn inode_is_deterministic() {
    let a = KubernetesResource::new_namespace("default");
    let b = KubernetesResource::new_namespace("default");
    assert_eq!(a.inode(), a.inode());
    assert_eq!(a.inode(), b.inode());
    assert_eq!(a.clone().inode(), a.inode());
    let p = KubernetesResource::new_pod("default", "web-1");
    let q = KubernetesResource::new_pod("default", "web-1");
    assert_eq!(p.inode(), q.inode());
}

#[test]
fn inode_depends_on_scope_and_kind_only() {
    let mut a = KubernetesResource::new_namespace("default");
    let before = a.inode();
    a.file_type = FileKind::Symlink;
    assert_eq!(a.inode(), before);
    a.kind = "node".to_string();
    assert_ne!(a.inode(), before);
}

#[test]
fn inode_hashes_the_terminated_identity() {
    let ns = KubernetesResource::new_namespace("default");
    assert_eq!(ns.inode(), inode_from_hash(hash_of(b"\x00default\xffnamespace\xff")));
    let pod = KubernetesResource::new_pod("default", "web-1");
    assert_eq!(pod.inode(), inode_from_hash(hash_of(b"\x01default\xffweb-1\xffpod\xff")));
    let odd = KubernetesResource::new_namespace("caf\u{e9}");
    assert_eq!(odd.inode(), inode_from_hash(hash_of(b"\x00caf\xc3\xa9\xffnamespace\xff")));
}

#[test]
fn inode_tells_where_a_name_ends() {
    let a = KubernetesResource::new_pod("ab", "c");
    let b = KubernetesResource::new_pod("a", "bc");
    assert_ne!(a.inode(), b.inode());
    let c = KubernetesResource::new_namespace("pod");
    let d = KubernetesResource::new_pod("", "pod");
    assert_ne!(c.inode(), d.inode());
}

#[test]
fn inode_is_never_reserved() {
    for i in 0..2000 {
        let ns = KubernetesResource::new_namespace(&format!("ns-{}", i));
        assert_ne!(ns.inode(), ROOT_INODE);
        assert_ne!(ns.inode(), NO_INODE);
    }
}

#[test]
fn no_collisions_among_ten_thousand_names() {
    let mut seen: HashSet<u64> = HashSet::new();
    for i in 0..10_000 {
        let ns = KubernetesResource::new_namespace(&format!("namespace-{}", i));
        assert!(seen.insert(ns.inode()), "namespace {} collides", i);
    }
    for i in 0..100 {
        for j in 0..100 {
            let pod = KubernetesResource::new_pod(&format!("namespace-{}", i), &format!("pod-{}", j));
            assert!(seen.insert(pod.inode()), "pod {}/{} collides", i, j);
        }
    }
    assert_eq!(seen.len(), 20_000);
}

#[test]
fn same_pod_name_in_two_namespaces_gets_two_inodes() {
    let a = KubernetesResource::new_pod("default", "web-1");
    let b = KubernetesResource::new_pod("kube-system", "web-1");
    assert_ne!(a.inode(), b.inode());
}

#[test]
fn attributes_are_fixed_but_for_inode_and_kind() {
    let attr = make_attributes(42, FileKind::File);
    assert_eq!(attr.ino, 42);
    assert_eq!(attr.kind, FileKind::File);
    assert_eq!(attr.size, 1);
    assert_eq!(attr.blocks, 1);
    assert_eq!(attr.atime, 0);
    assert_eq!(attr.mtime, 0);
    assert_eq!(attr.ctime, 0);
    assert_eq!(attr.crtime, 0);
    assert_eq!(attr.perm, 0o774);
    assert_eq!(attr.nlink, 1);
    assert_eq!(attr.uid, 501);
    assert_eq!(attr.gid, 20);
    assert_eq!(attr.rdev, 0);
    assert_eq!(attr.flags, 0);
    assert_eq!(attr.blksize, 512);
    assert_eq!(attr.padding, 0);
}

#[test]
fn file_attr_carries_the_resource_inode_and_kind() {
    let ns = KubernetesResource::new_namespace("default");
    assert_eq!(ns.file_attr(), make_attributes(ns.inode(), FileKind::Directory));
    let pod = KubernetesResource::new_pod("default", "web-1");
    assert_eq!(pod.file_attr(), make_attributes(pod.inode(), FileKind::File));
}

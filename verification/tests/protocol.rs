use kubefs::protocol::{
    placeholder_payload, slice_payload, AttrReply, DirEntry, EntryReply, Errno, OpenReply,
    StatfsReply, GENERATION, TTL,
};
use kubefs::resource::{make_attributes, FileKind, Inode, KubernetesResource, ROOT_INODE};
use kubefs::store::{FetchError, KubeFS};

fn names(list: &[&str]) -> Vec<String> {
    list.iter().map(|n| n.to_string()).collect()
}

fn ino_of(namespace: &str) -> Inode {
    KubernetesResource::new_namespace(namespace).inode()
}

fn pod_ino(namespace: &str, name: &str) -> Inode {
    KubernetesResource::new_pod(namespace, name).inode()
}

/// A cluster with the namespaces `default` (pod `web-1`) and `kube-system`
/// (pods `dns`, `proxy`), the first listed and the second not yet.
fn sample() -> KubeFS {
    let mut fs = KubeFS::new(&names(&["default", "kube-system"]));
    fs.populate_namespace_filesystem(ino_of("default"), Ok(names(&["web-1"]))).unwrap();
    fs
}

fn shown(list: &[DirEntry]) -> Vec<(Inode, i64, FileKind, String)> {
    list.iter().map(|e| (e.ino, e.offset, e.kind, e.name.clone())).collect()
}

#[test]
fn root_listing_has_the_two_fixed_entries_and_the_namespaces() {
    let fs = KubeFS::new(&names(&["default", "kube-system"]));
    let list = fs.readdir(ROOT_INODE, 0).unwrap();
    assert_eq!(
        shown(&list),
        vec![
            (ROOT_INODE, 1, FileKind::Directory, ".".to_string()),
            (ROOT_INODE, 2, FileKind::Directory, "..".to_string()),
            (ino_of("default"), 3, FileKind::Directory, "default".to_string()),
            (ino_of("kube-system"), 4, FileKind::Directory, "kube-system".to_string()),
        ]
    );
    let again = fs.readdir(ROOT_INODE, 0).unwrap();
    assert_eq!(shown(&list), shown(&again));
}

#[test]
fn namespace_listing_points_up_to_the_root() {
    let fs = sample();
    let default = ino_of("default");
    let list = fs.readdir(default, 0).unwrap();
    assert_eq!(
        shown(&list),
        vec![
            (default, 1, FileKind::Directory, ".".to_string()),
            (ROOT_INODE, 2, FileKind::Directory, "..".to_string()),
            (pod_ino("default", "web-1"), 3, FileKind::File, "web-1".to_string()),
        ]
    );
}

#[test]
fn file_listing_has_only_the_fixed_entries() {
    let fs = sample();
    let pod = pod_ino("default", "web-1");
    let list = fs.readdir(pod, 0).unwrap();
    assert_eq!(
        shown(&list),
        vec![
            (pod, 1, FileKind::Directory, ".".to_string()),
            (ino_of("default"), 2, FileKind::Directory, "..".to_string()),
        ]
    );
}

#[test]
fn listing_resumes_after_each_cursor() {
    let mut fs = KubeFS::new(&names(&["default"]));
    fs.populate_namespace_filesystem(ino_of("default"), Ok(names(&["a", "b", "c", "d"]))).unwrap();
    let dir = ino_of("default");
    let full = shown(&fs.readdir(dir, 0).unwrap());
    assert_eq!(full.len(), 6);
    for at in 0..full.len() {
        assert_eq!(full[at].1, at as i64 + 1);
        let rest = shown(&fs.readdir(dir, full[at].1).unwrap());
        assert_eq!(rest, full[at + 1..].to_vec());
    }
    assert_eq!(shown(&fs.readdir(dir, 1).unwrap())[0].3, "..");
    assert_eq!(shown(&fs.readdir(dir, 2).unwrap())[0].3, "a");
    assert_eq!(shown(&fs.readdir(dir, 5).unwrap()), vec![full[5].clone()]);
}

#[test]
fn listing_at_or_past_the_end_is_empty_and_no_error() {
    let fs = KubeFS::new(&names(&["default", "kube-system"]));
    assert_eq!(fs.readdir(ROOT_INODE, 3).unwrap().len(), 1);
    assert_eq!(fs.readdir(ROOT_INODE, 4).unwrap().len(), 0);
    assert_eq!(fs.readdir(ROOT_INODE, 5).unwrap().len(), 0);
    assert_eq!(fs.readdir(ROOT_INODE, 1_000_000).unwrap().len(), 0);
    assert_eq!(fs.readdir(ROOT_INODE, i64::MAX).unwrap().len(), 0);
    let empty = KubeFS::new(&Vec::new());
    assert_eq!(empty.readdir(ROOT_INODE, 2).unwrap().len(), 0);
    assert_eq!(empty.readdir(ROOT_INODE, 3).unwrap().len(), 0);
}

#[test]
fn listing_from_a_negative_offset_is_empty() {
    let fs = KubeFS::new(&names(&["default"]));
    assert_eq!(fs.readdir(ROOT_INODE, -1).unwrap().len(), 0);
    assert_eq!(fs.readdir(ROOT_INODE, i64::MIN).unwrap().len(), 0);
}

#[test]
fn listing_an_unknown_inode_is_no_entry() {
    let fs = sample();
    assert_eq!(fs.readdir(987654321, 0).err(), Some(Errno::NoEntry));
    assert_eq!(fs.readdir(0, 0).err(), Some(Errno::NoEntry));
    assert_eq!(fs.readdir(987654321, 100).err(), Some(Errno::NoEntry));
}

#[test]
fn listing_a_namespace_without_its_pods_is_no_entry() {
    let mut fs = sample();
    let system = ino_of("kube-system");
    assert_eq!(fs.readdir(system, 0).err(), Some(Errno::NoEntry));
    assert_eq!(fs.lookup(system, "dns").err(), Some(Errno::NoEntry));
    let _ = fs.populate_namespace_filesystem(system, Err(FetchError::Connection));
    assert_eq!(fs.readdir(system, 0).err(), Some(Errno::NoEntry));
    fs.populate_namespace_filesystem(system, Ok(names(&["dns", "proxy"]))).unwrap();
    assert_eq!(fs.readdir(system, 0).unwrap().len(), 4);
    assert_eq!(fs.lookup(system, "dns").unwrap().attr.ino, pod_ino("kube-system", "dns"));
}

#[test]
fn lookup_finds_every_namespace_that_the_root_lists() {
    let fs = KubeFS::new(&names(&["default", "kube-system", "monitoring", "a", "b"]));
    let list = fs.readdir(ROOT_INODE, 0).unwrap();
    assert_eq!(list.len(), 7);
    for entry in &list[2..] {
        let found = fs.lookup(ROOT_INODE, &entry.name).unwrap();
        assert_eq!(found.attr.ino, entry.ino);
        assert_eq!(found.attr.kind, entry.kind);
    }
}

#[test]
fn lookup_finds_every_pod_that_a_namespace_lists() {
    let mut fs = KubeFS::new(&names(&["default"]));
    let dir = ino_of("default");
    fs.populate_namespace_filesystem(dir, Ok(names(&["web-1", "web-2", "db"]))).unwrap();
    let list = fs.readdir(dir, 0).unwrap();
    assert_eq!(list.len(), 5);
    for entry in &list[2..] {
        let found = fs.lookup(dir, &entry.name).unwrap();
        assert_eq!(found.attr.ino, entry.ino);
        assert_eq!(found.attr.kind, FileKind::File);
    }
}

#[test]
fn lookup_replies_with_attributes_and_validity() {
    let fs = sample();
    let default = ino_of("default");
    assert_eq!(
        fs.lookup(ROOT_INODE, "default"),
        Ok(EntryReply {
            ttl: 1,
            attr: make_attributes(default, FileKind::Directory),
            generation: 1,
        })
    );
    assert_eq!(TTL, 1);
    assert_eq!(GENERATION, 1);
}

#[test]
fn lookup_of_a_pod_is_a_file_and_a_missing_name_is_no_entry() {
    let fs = sample();
    let default = ino_of("default");
    let found = fs.lookup(default, "web-1").unwrap();
    assert_eq!(found.attr.kind, FileKind::File);
    assert_eq!(found.attr.ino, pod_ino("default", "web-1"));
    assert_eq!(found.attr, make_attributes(pod_ino("default", "web-1"), FileKind::File));
    assert_eq!(fs.lookup(default, "missing"), Err(Errno::NoEntry));
    assert_eq!(fs.lookup(ROOT_INODE, "web-1"), Err(Errno::NoEntry));
    assert_eq!(fs.lookup(ROOT_INODE, "."), Err(Errno::NoEntry));
    assert_eq!(fs.lookup(31337, "web-1"), Err(Errno::NoEntry));
    assert_eq!(fs.lookup(found.attr.ino, "web-1"), Err(Errno::NoEntry));
}

#[test]
fn getattr_replies_for_known_inodes_only() {
    let fs = sample();
    assert_eq!(
        fs.getattr(ROOT_INODE),
        Ok(AttrReply { ttl: 1, attr: make_attributes(ROOT_INODE, FileKind::Directory) })
    );
    let default = ino_of("default");
    assert_eq!(
        fs.getattr(default),
        Ok(AttrReply { ttl: 1, attr: make_attributes(default, FileKind::Directory) })
    );
    let pod = pod_ino("default", "web-1");
    assert_eq!(
        fs.getattr(pod),
        Ok(AttrReply { ttl: 1, attr: make_attributes(pod, FileKind::File) })
    );
    assert_eq!(fs.getattr(0), Err(Errno::NoEntry));
    assert_eq!(fs.getattr(pod_ino("kube-system", "dns")), Err(Errno::NoEntry));
}

#[test]
fn read_returns_the_placeholder_from_the_offset() {
    let fs = sample();
    let pod = pod_ino("default", "web-1");
    assert_eq!(fs.read(pod, 0, 4096), Ok(b"Hello World!\n".to_vec()));
    assert_eq!(fs.read(pod, 6, 4096), Ok(b"World!\n".to_vec()));
    assert_eq!(fs.read(pod, 6, 5), Ok(b"World".to_vec()));
    assert_eq!(fs.read(pod, 0, 13), Ok(b"Hello World!\n".to_vec()));
    assert_eq!(fs.read(pod, 0, 12), Ok(b"Hello World!".to_vec()));
    assert_eq!(fs.read(pod, 12, 1), Ok(b"\n".to_vec()));
    assert_eq!(fs.read(pod, 0, 0), Ok(Vec::new()));
    assert_eq!(fs.read(pod, 3, u32::MAX), Ok(b"lo World!\n".to_vec()));
}

#[test]
fn read_outside_the_placeholder_is_empty() {
    let fs = sample();
    let pod = pod_ino("default", "web-1");
    assert_eq!(fs.read(pod, 13, 10), Ok(Vec::new()));
    assert_eq!(fs.read(pod, 14, 10), Ok(Vec::new()));
    assert_eq!(fs.read(pod, i64::MAX, 10), Ok(Vec::new()));
    assert_eq!(fs.read(pod, -1, 10), Ok(Vec::new()));
    assert_eq!(fs.read(pod, i64::MIN, u32::MAX), Ok(Vec::new()));
}

#[test]
fn read_of_a_directory_or_an_unknown_inode_fails() {
    let fs = sample();
    assert_eq!(fs.read(ROOT_INODE, 0, 10), Err(Errno::IsDirectory));
    assert_eq!(fs.read(ino_of("default"), 0, 10), Err(Errno::IsDirectory));
    assert_eq!(fs.read(ino_of("kube-system"), 5, 0), Err(Errno::IsDirectory));
    assert_eq!(fs.read(55555, 0, 10), Err(Errno::NoEntry));
    assert_eq!(fs.read(0, 0, 10), Err(Errno::NoEntry));
}

#[test]
fn payload_is_cut_as_asked() {
    assert_eq!(placeholder_payload(), b"Hello World!\n".to_vec());
    let data: Vec<u8> = vec![1, 2, 3, 4, 5];
    assert_eq!(slice_payload(&data, 0, 5), vec![1, 2, 3, 4, 5]);
    assert_eq!(slice_payload(&data, 1, 3), vec![2, 3, 4]);
    assert_eq!(slice_payload(&data, 4, 1), vec![5]);
    assert_eq!(slice_payload(&data, 4, 2), vec![5]);
    assert_eq!(slice_payload(&data, 5, 1), Vec::<u8>::new());
    assert_eq!(slice_payload(&data, -3, 2), Vec::<u8>::new());
    assert_eq!(slice_payload(&Vec::new(), 0, 2), Vec::<u8>::new());
}

#[test]
fn every_changing_operation_is_not_supported() {
    let fs = sample();
    let dir = ino_of("default");
    let pod = pod_ino("default", "web-1");
    let no = Errno::NotSupported;
    for ino in [ROOT_INODE, dir, pod, 0, 424242, u64::MAX] {
        assert_eq!(fs.setattr(ino, Some(0o644), None, Some(7), Some(0), None, None), Err(no));
        assert_eq!(fs.setattr(ino, None, None, None, None, None, None), Err(no));
        assert_eq!(fs.readlink(ino), Err(no));
        assert_eq!(fs.mknod(ino, "node", 0o644, 0), Err(no));
        assert_eq!(fs.mkdir(ino, "dir", 0o755), Err(no));
        assert_eq!(fs.unlink(ino, "web-1"), Err(no));
        assert_eq!(fs.rmdir(ino, "default"), Err(no));
        assert_eq!(fs.symlink(ino, "link", "/target"), Err(no));
        assert_eq!(fs.rename(ino, "web-1", dir, "web-2"), Err(no));
        assert_eq!(fs.link(ino, dir, "hard"), Err(no));
        assert_eq!(fs.write(ino, 0, 0, b"data", 0), Err(no));
        assert_eq!(fs.write(ino, 9, -4, b"", 1), Err(no));
        assert_eq!(fs.flush(ino, 0, 0), Err(no));
        assert_eq!(fs.fsync(ino, 0, true), Err(no));
        assert_eq!(fs.fsyncdir(ino, 0, false), Err(no));
        assert_eq!(fs.setxattr(ino, "user.key", b"value", 0, 0), Err(no));
        assert_eq!(fs.getxattr(ino, "user.key", 64), Err(no));
        assert_eq!(fs.listxattr(ino, 64), Err(no));
        assert_eq!(fs.removexattr(ino, "user.key"), Err(no));
        assert_eq!(fs.access(ino, 4), Err(no));
        assert_eq!(fs.create(ino, "new", 0o644, 0), Err(no));
        assert_eq!(fs.getlk(ino, 0, 0, 0, 10, 1, 100), Err(no));
        assert_eq!(fs.setlk(ino, 0, 0, 0, 10, 1, 100, false), Err(no));
        assert_eq!(fs.bmap(ino, 512, 0), Err(no));
        assert_eq!(fs.exchange(ino, "a", dir, "b", 0), Err(no));
        assert_eq!(fs.getxtimes(ino), Err(no));
    }
    assert_eq!(fs.setvolname("volume"), Err(no));
    assert_eq!(shown(&fs.readdir(dir, 0).unwrap()).len(), 3);
    assert_eq!(fs.lookup(dir, "web-2"), Err(Errno::NoEntry));
    assert_eq!(fs.lookup(dir, "new"), Err(Errno::NoEntry));
}

#[test]
fn opening_and_releasing_are_acknowledged() {
    let mut fs = sample();
    assert_eq!(fs.init(), Ok(()));
    assert_eq!(fs.open(pod_ino("default", "web-1"), 0), OpenReply { fh: 0, flags: 0 });
    assert_eq!(fs.open(77, 0x8000), OpenReply { fh: 0, flags: 0 });
    assert_eq!(fs.opendir(ROOT_INODE, 0), OpenReply { fh: 0, flags: 0 });
    assert_eq!(fs.release(77, 0, 0, 0, true), Ok(()));
    assert_eq!(fs.releasedir(ROOT_INODE, 0, 0), Ok(()));
    fs.forget(ino_of("default"), 3);
    fs.destroy();
    assert_eq!(fs.readdir(ROOT_INODE, 0).unwrap().len(), 4);
    assert_eq!(fs.lookup(ino_of("default"), "web-1").unwrap().attr.kind, FileKind::File);
}

#[test]
fn statfs_reports_an_empty_filesystem() {
    let fs = sample();
    assert_eq!(
        fs.statfs(ROOT_INODE),
        StatfsReply {
            blocks: 0,
            bfree: 0,
            bavail: 0,
            files: 0,
            ffree: 0,
            bsize: 512,
            namelen: 255,
            frsize: 512,
        }
    );
}

use mount_table::{split_fields, split_into_lines, FileSystem};

#[test]
fn known_physical_tags_classify_physical() {
    for tag in ["ext2", "ext3", "ext4", "xfs", "btrfs", "vfat", "exfat", "ntfs", "f2fs", "jfs",
        "reiserfs", "zfs", "hfs", "hfsplus", "fuseblk"] {
        let fs = FileSystem::classify(tag);
        assert!(fs.is_physical(), "{} should be physical", tag);
    }
}

#[test]
fn known_virtual_tags_classify_virtual() {
    for tag in ["tmpfs", "devtmpfs", "proc", "sysfs", "devpts", "debugfs", "cgroup", "cgroup2",
        "overlay", "squashfs", "ramfs", "autofs", "nfs", "nfs4", "cifs"] {
        let fs = FileSystem::classify(tag);
        assert!(!fs.is_physical(), "{} should be virtual", tag);
    }
}

#[test]
fn classification_is_total_and_unknown_is_virtual() {
    for tag in ["", "garbagefs", "EXT4", "ext5", "something_new"] {
        let fs = FileSystem::classify(tag);
        assert!(!fs.is_physical(), "unknown tag {} must classify as virtual", tag);
        match fs {
            FileSystem::Other(s) => assert_eq!(s, tag),
            _ => panic!("unknown tag {} should map to Other", tag),
        }
    }
}

#[test]
fn classification_keeps_known_tags_out_of_other() {
    assert!(matches!(FileSystem::classify("ext4"), FileSystem::Ext4));
    assert!(matches!(FileSystem::classify("tmpfs"), FileSystem::Tmpfs));
    assert!(matches!(FileSystem::classify("nfs4"), FileSystem::Nfs4));
}

#[test]
fn split_fields_drops_empty_fields() {
    let fields = split_fields("  a \t b  c ");
    assert_eq!(fields, vec!["a", "b", "c"]);
}

#[test]
fn split_into_lines_keeps_interior_empties() {
    let lines = split_into_lines("a\n\nb\n");
    assert_eq!(lines, vec!["a", "", "b"]);
}

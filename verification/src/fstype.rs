//! Filesystem-type tags and their physical/virtual classification.
//!
//! Classification is total: every type string maps to some tag. Strings not
//! in the known set map to `Other`, which is classified as virtual on
//! purpose, so that unknown pseudo-filesystems are never counted as real
//! storage.

use vstd::prelude::*;
use crate::text::str_eq;

verus! {

/// A mount-table filesystem type, as an open set of known tags plus a
/// catch-all `Other` that keeps the original type string.
#[derive(Debug)]
pub enum FileSystem {
    Ext2,
    Ext3,
    Ext4,
    Xfs,
    Btrfs,
    Vfat,
    Exfat,
    Ntfs,
    F2fs,
    Jfs,
    Reiserfs,
    Zfs,
    Hfs,
    HfsPlus,
    FuseBlk,
    Tmpfs,
    Devtmpfs,
    Proc,
    Sysfs,
    Devpts,
    Debugfs,
    Cgroup,
    Cgroup2,
    Overlay,
    Squashfs,
    Ramfs,
    Autofs,
    Nfs,
    Nfs4,
    Cifs,
    /// A type string outside the known set, kept verbatim. Always
    /// classified as virtual.
    Other(String),
}

/// The mathematical model of a `FileSystem`: the same tags, with the
/// `Other` string as a character sequence.
pub enum FsModel {
    Ext2,
    Ext3,
    Ext4,
    Xfs,
    Btrfs,
    Vfat,
    Exfat,
    Ntfs,
    F2fs,
    Jfs,
    Reiserfs,
    Zfs,
    Hfs,
    HfsPlus,
    FuseBlk,
    Tmpfs,
    Devtmpfs,
    Proc,
    Sysfs,
    Devpts,
    Debugfs,
    Cgroup,
    Cgroup2,
    Overlay,
    Squashfs,
    Ramfs,
    Autofs,
    Nfs,
    Nfs4,
    Cifs,
    Other(Seq<char>),
}

impl FsModel {
    /// Whether this tag names a filesystem backed by real storage.
    /// Network filesystems and everything unrecognized count as virtual.
    pub open spec fn is_physical(&self) -> bool {
        match *self {
            FsModel::Ext2 => true,
            FsModel::Ext3 => true,
            FsModel::Ext4 => true,
            FsModel::Xfs => true,
            FsModel::Btrfs => true,
            FsModel::Vfat => true,
            FsModel::Exfat => true,
            FsModel::Ntfs => true,
            FsModel::F2fs => true,
            FsModel::Jfs => true,
            FsModel::Reiserfs => true,
            FsModel::Zfs => true,
            FsModel::Hfs => true,
            FsModel::HfsPlus => true,
            FsModel::FuseBlk => true,
            _ => false,
        }
    }
}

impl View for FileSystem {
    type V = FsModel;

    open spec fn view(&self) -> FsModel {
        match *self {
            FileSystem::Ext2 => FsModel::Ext2,
            FileSystem::Ext3 => FsModel::Ext3,
            FileSystem::Ext4 => FsModel::Ext4,
            FileSystem::Xfs => FsModel::Xfs,
            FileSystem::Btrfs => FsModel::Btrfs,
            FileSystem::Vfat => FsModel::Vfat,
            FileSystem::Exfat => FsModel::Exfat,
            FileSystem::Ntfs => FsModel::Ntfs,
            FileSystem::F2fs => FsModel::F2fs,
            FileSystem::Jfs => FsModel::Jfs,
            FileSystem::Reiserfs => FsModel::Reiserfs,
            FileSystem::Zfs => FsModel::Zfs,
            FileSystem::Hfs => FsModel::Hfs,
            FileSystem::HfsPlus => FsModel::HfsPlus,
            FileSystem::FuseBlk => FsModel::FuseBlk,
            FileSystem::Tmpfs => FsModel::Tmpfs,
            FileSystem::Devtmpfs => FsModel::Devtmpfs,
            FileSystem::Proc => FsModel::Proc,
            FileSystem::Sysfs => FsModel::Sysfs,
            FileSystem::Devpts => FsModel::Devpts,
            FileSystem::Debugfs => FsModel::Debugfs,
            FileSystem::Cgroup => FsModel::Cgroup,
            FileSystem::Cgroup2 => FsModel::Cgroup2,
            FileSystem::Overlay => FsModel::Overlay,
            FileSystem::Squashfs => FsModel::Squashfs,
            FileSystem::Ramfs => FsModel::Ramfs,
            FileSystem::Autofs => FsModel::Autofs,
            FileSystem::Nfs => FsModel::Nfs,
            FileSystem::Nfs4 => FsModel::Nfs4,
            FileSystem::Cifs => FsModel::Cifs,
            FileSystem::Other(ref s) => FsModel::Other(s@),
        }
    }
}

impl Clone for FileSystem {
    /// A clone is equal to the original, the kept `Other` string included.
    fn clone(&self) -> (r: Self)
        ensures
            r == *self,
    {
        match *self {
            FileSystem::Ext2 => FileSystem::Ext2,
            FileSystem::Ext3 => FileSystem::Ext3,
            FileSystem::Ext4 => FileSystem::Ext4,
            FileSystem::Xfs => FileSystem::Xfs,
            FileSystem::Btrfs => FileSystem::Btrfs,
            FileSystem::Vfat => FileSystem::Vfat,
            FileSystem::Exfat => FileSystem::Exfat,
            FileSystem::Ntfs => FileSystem::Ntfs,
            FileSystem::F2fs => FileSystem::F2fs,
            FileSystem::Jfs => FileSystem::Jfs,
            FileSystem::Reiserfs => FileSystem::Reiserfs,
            FileSystem::Zfs => FileSystem::Zfs,
            FileSystem::Hfs => FileSystem::Hfs,
            FileSystem::HfsPlus => FileSystem::HfsPlus,
            FileSystem::FuseBlk => FileSystem::FuseBlk,
            FileSystem::Tmpfs => FileSystem::Tmpfs,
            FileSystem::Devtmpfs => FileSystem::Devtmpfs,
            FileSystem::Proc => FileSystem::Proc,
            FileSystem::Sysfs => FileSystem::Sysfs,
            FileSystem::Devpts => FileSystem::Devpts,
            FileSystem::Debugfs => FileSystem::Debugfs,
            FileSystem::Cgroup => FileSystem::Cgroup,
            FileSystem::Cgroup2 => FileSystem::Cgroup2,
            FileSystem::Overlay => FileSystem::Overlay,
            FileSystem::Squashfs => FileSystem::Squashfs,
            FileSystem::Ramfs => FileSystem::Ramfs,
            FileSystem::Autofs => FileSystem::Autofs,
            FileSystem::Nfs => FileSystem::Nfs,
            FileSystem::Nfs4 => FileSystem::Nfs4,
            FileSystem::Cifs => FileSystem::Cifs,
            FileSystem::Other(ref s) => FileSystem::Other(s.clone()),
        }
    }
}

/// The type strings that map to a tag other than `Other`.
pub open spec fn known_tag(tag: Seq<char>) -> bool {
    ||| tag == "ext2"@
    ||| tag == "ext3"@
    ||| tag == "ext4"@
    ||| tag == "xfs"@
    ||| tag == "btrfs"@
    ||| tag == "vfat"@
    ||| tag == "exfat"@
    ||| tag == "ntfs"@
    ||| tag == "f2fs"@
    ||| tag == "jfs"@
    ||| tag == "reiserfs"@
    ||| tag == "zfs"@
    ||| tag == "hfs"@
    ||| tag == "hfsplus"@
    ||| tag == "fuseblk"@
    ||| tag == "tmpfs"@
    ||| tag == "devtmpfs"@
    ||| tag == "proc"@
    ||| tag == "sysfs"@
    ||| tag == "devpts"@
    ||| tag == "debugfs"@
    ||| tag == "cgroup"@
    ||| tag == "cgroup2"@
    ||| tag == "overlay"@
    ||| tag == "squashfs"@
    ||| tag == "ramfs"@
    ||| tag == "autofs"@
    ||| tag == "nfs"@
    ||| tag == "nfs4"@
    ||| tag == "cifs"@
}

/// The total classification of a filesystem type string: every string maps
/// to a tag, and strings outside the known set map to `Other`.
pub open spec fn classify_spec(tag: Seq<char>) -> FsModel {
    if tag == "ext2"@ {
        FsModel::Ext2
    } else if tag == "ext3"@ {
        FsModel::Ext3
    } else if tag == "ext4"@ {
        FsModel::Ext4
    } else if tag == "xfs"@ {
        FsModel::Xfs
    } else if tag == "btrfs"@ {
        FsModel::Btrfs
    } else if tag == "vfat"@ {
        FsModel::Vfat
    } else if tag == "exfat"@ {
        FsModel::Exfat
    } else if tag == "ntfs"@ {
        FsModel::Ntfs
    } else if tag == "f2fs"@ {
        FsModel::F2fs
    } else if tag == "jfs"@ {
        FsModel::Jfs
    } else if tag == "reiserfs"@ {
        FsModel::Reiserfs
    } else if tag == "zfs"@ {
        FsModel::Zfs
    } else if tag == "hfs"@ {
        FsModel::Hfs
    } else if tag == "hfsplus"@ {
        FsModel::HfsPlus
    } else if tag == "fuseblk"@ {
        FsModel::FuseBlk
    } else if tag == "tmpfs"@ {
        FsModel::Tmpfs
    } else if tag == "devtmpfs"@ {
        FsModel::Devtmpfs
    } else if tag == "proc"@ {
        FsModel::Proc
    } else if tag == "sysfs"@ {
        FsModel::Sysfs
    } else if tag == "devpts"@ {
        FsModel::Devpts
    } else if tag == "debugfs"@ {
        FsModel::Debugfs
    } else if tag == "cgroup"@ {
        FsModel::Cgroup
    } else if tag == "cgroup2"@ {
        FsModel::Cgroup2
    } else if tag == "overlay"@ {
        FsModel::Overlay
    } else if tag == "squashfs"@ {
        FsModel::Squashfs
    } else if tag == "ramfs"@ {
        FsModel::Ramfs
    } else if tag == "autofs"@ {
        FsModel::Autofs
    } else if tag == "nfs"@ {
        FsModel::Nfs
    } else if tag == "nfs4"@ {
        FsModel::Nfs4
    } else if tag == "cifs"@ {
        FsModel::Cifs
    } else {
        FsModel::Other(tag)
    }
}

/// Classification never fails and depends on nothing but the tag string:
/// a string outside the known set maps to `Other`, which is classified as
/// virtual, never as physical.
pub proof fn lemma_unrecognized_is_virtual(tag: Seq<char>)
    requires
        !known_tag(tag),
    ensures
        classify_spec(tag) == FsModel::Other(tag),
        !classify_spec(tag).is_physical(),
{
}

impl FileSystem {
    /// Classifies a filesystem type string. Total: every string yields a
    /// value, unknown strings yield `Other` with the string kept verbatim.
    pub fn classify(tag: &str) -> (r: FileSystem)
        ensures
            r@ == classify_spec(tag@),
    {
        if str_eq(tag, "ext2") {
            FileSystem::Ext2
        } else if str_eq(tag, "ext3") {
            FileSystem::Ext3
        } else if str_eq(tag, "ext4") {
            FileSystem::Ext4
        } else if str_eq(tag, "xfs") {
            FileSystem::Xfs
        } else if str_eq(tag, "btrfs") {
            FileSystem::Btrfs
        } else if str_eq(tag, "vfat") {
            FileSystem::Vfat
        } else if str_eq(tag, "exfat") {
            FileSystem::Exfat
        } else if str_eq(tag, "ntfs") {
            FileSystem::Ntfs
        } else if str_eq(tag, "f2fs") {
            FileSystem::F2fs
        } else if str_eq(tag, "jfs") {
            FileSystem::Jfs
        } else if str_eq(tag, "reiserfs") {
            FileSystem::Reiserfs
        } else if str_eq(tag, "zfs") {
            FileSystem::Zfs
        } else if str_eq(tag, "hfs") {
            FileSystem::Hfs
        } else if str_eq(tag, "hfsplus") {
            FileSystem::HfsPlus
        } else if str_eq(tag, "fuseblk") {
            FileSystem::FuseBlk
        } else if str_eq(tag, "tmpfs") {
            FileSystem::Tmpfs
        } else if str_eq(tag, "devtmpfs") {
            FileSystem::Devtmpfs
        } else if str_eq(tag, "proc") {
            FileSystem::Proc
        } else if str_eq(tag, "sysfs") {
            FileSystem::Sysfs
        } else if str_eq(tag, "devpts") {
            FileSystem::Devpts
        } else if str_eq(tag, "debugfs") {
            FileSystem::Debugfs
        } else if str_eq(tag, "cgroup") {
            FileSystem::Cgroup
        } else if str_eq(tag, "cgroup2") {
            FileSystem::Cgroup2
        } else if str_eq(tag, "overlay") {
            FileSystem::Overlay
        } else if str_eq(tag, "squashfs") {
            FileSystem::Squashfs
        } else if str_eq(tag, "ramfs") {
            FileSystem::Ramfs
        } else if str_eq(tag, "autofs") {
            FileSystem::Autofs
        } else if str_eq(tag, "nfs") {
            FileSystem::Nfs
        } else if str_eq(tag, "nfs4") {
            FileSystem::Nfs4
        } else if str_eq(tag, "cifs") {
            FileSystem::Cifs
        } else {
            FileSystem::Other(String::from_str(tag))
        }
    }

    /// Whether this filesystem is backed by real storage, as opposed to a
    /// virtual, pseudo or network filesystem.
    pub fn is_physical(&self) -> (r: bool)
        ensures
            r == self@.is_physical(),
    {
        match *self {
            FileSystem::Ext2 => true,
            FileSystem::Ext3 => true,
            FileSystem::Ext4 => true,
            FileSystem::Xfs => true,
            FileSystem::Btrfs => true,
            FileSystem::Vfat => true,
            FileSystem::Exfat => true,
            FileSystem::Ntfs => true,
            FileSystem::F2fs => true,
            FileSystem::Jfs => true,
            FileSystem::Reiserfs => true,
            FileSystem::Zfs => true,
            FileSystem::Hfs => true,
            FileSystem::HfsPlus => true,
            FileSystem::FuseBlk => true,
            _ => false,
        }
    }
}

} // verus!

use mount_table::{parse_line, partitions, partitions_physical, Error, FileSystem};

#[test]
fn parses_well_formed_line_verbatim() {
    let p = parse_line("/dev/sda3 /home ext4 rw,relatime,data=ordered 0 0").unwrap();
    assert_eq!(p.device(), "/dev/sda3");
    assert_eq!(p.mountpoint(), "/home");
    assert!(matches!(p.filesystem(), FileSystem::Ext4));
    assert_eq!(p.mount_options(), "rw,relatime,data=ordered");
}

#[test]
fn mount_options_are_never_comma_split() {
    let p = parse_line("/dev/sdb1 /data xfs rw,noatime,attr2,inode64 0 0").unwrap();
    assert_eq!(p.mount_options(), "rw,noatime,attr2,inode64");
}

#[test]
fn trailing_fields_are_ignored() {
    let p = parse_line("tmpfs /run tmpfs rw,nosuid,noexec 0 0 extra junk").unwrap();
    assert_eq!(p.device(), "tmpfs");
    assert_eq!(p.mountpoint(), "/run");
    assert!(matches!(p.filesystem(), FileSystem::Tmpfs));
    assert_eq!(p.mount_options(), "rw,nosuid,noexec");
}

#[test]
fn exactly_four_fields_parse() {
    let p = parse_line("/dev/sda1 / ext4 rw").unwrap();
    assert_eq!(p.device(), "/dev/sda1");
    assert_eq!(p.mount_options(), "rw");
}

#[test]
fn runs_of_whitespace_separate_fields() {
    let p = parse_line("  /dev/sda2\t\t/boot   vfat\t rw,umask=0077 0 0").unwrap();
    assert_eq!(p.device(), "/dev/sda2");
    assert_eq!(p.mountpoint(), "/boot");
    assert!(matches!(p.filesystem(), FileSystem::Vfat));
    assert_eq!(p.mount_options(), "rw,umask=0077");
}

#[test]
fn empty_line_is_malformed() {
    let r = parse_line("");
    assert!(matches!(r, Err(Error::MalformedRecord(_))));
}

#[test]
fn whitespace_only_line_is_malformed() {
    let r = parse_line("   \t  ");
    assert!(matches!(r, Err(Error::MalformedRecord(_))));
}

#[test]
fn single_word_line_is_malformed() {
    let r = parse_line("tmpfs");
    assert!(matches!(r, Err(Error::MalformedRecord(_))));
}

#[test]
fn three_field_line_is_malformed_and_carries_the_line() {
    let r = parse_line("tmpfs /run tmpfs");
    match r {
        Err(Error::MalformedRecord(l)) => assert_eq!(l, "tmpfs /run tmpfs"),
        _ => panic!("expected MalformedRecord"),
    }
}

#[test]
fn end_to_end_example() {
    let table = "/dev/sda3 /home ext4 rw,relatime,data=ordered 0 0\ntmpfs /run tmpfs rw,nosuid 0 0\n";
    let all = partitions(table).unwrap();
    assert_eq!(all.len(), 2);
    assert_eq!(all[0].device(), "/dev/sda3");
    assert!(matches!(all[0].filesystem(), FileSystem::Ext4));
    assert_eq!(all[1].device(), "tmpfs");
    assert!(matches!(all[1].filesystem(), FileSystem::Tmpfs));
    let physical = partitions_physical(table).unwrap();
    assert_eq!(physical.len(), 1);
    assert_eq!(physical[0].device(), "/dev/sda3");
    assert_eq!(physical[0].mountpoint(), "/home");
}

#[test]
fn empty_table_gives_empty_list() {
    let all = partitions("").unwrap();
    assert!(all.is_empty());
    let physical = partitions_physical("").unwrap();
    assert!(physical.is_empty());
}

#[test]
fn order_and_duplicates_are_preserved() {
    let table = "/dev/sda1 /mnt/a ext4 rw 0 0\n/dev/sda1 /mnt/b ext4 rw 0 0\n/dev/sda1 /mnt/a ext4 rw 0 0\n";
    let all = partitions(table).unwrap();
    assert_eq!(all.len(), 3);
    assert_eq!(all[0].mountpoint(), "/mnt/a");
    assert_eq!(all[1].mountpoint(), "/mnt/b");
    assert_eq!(all[2].mountpoint(), "/mnt/a");
}

#[test]
fn blank_lines_are_skipped_not_parsed() {
    let table = "\n/dev/sda1 / ext4 rw 0 0\n\n\ntmpfs /tmp tmpfs rw 0 0\n";
    let all = partitions(table).unwrap();
    assert_eq!(all.len(), 2);
    assert_eq!(all[0].device(), "/dev/sda1");
    assert_eq!(all[1].device(), "tmpfs");
}

#[test]
fn table_without_trailing_newline_parses() {
    let all = partitions("/dev/sda1 / ext4 rw 0 0").unwrap();
    assert_eq!(all.len(), 1);
    assert_eq!(all[0].device(), "/dev/sda1");
}

#[test]
fn malformed_line_fails_the_whole_read() {
    let table = "/dev/sda1 / ext4 rw 0 0\ngarbage\n";
    let r = partitions(table);
    match r {
        Err(Error::MalformedRecord(l)) => assert_eq!(l, "garbage"),
        _ => panic!("expected MalformedRecord"),
    }
    let r = partitions_physical(table);
    assert!(matches!(r, Err(Error::MalformedRecord(_))));
}

#[test]
fn first_malformed_line_is_the_one_reported() {
    let table = "bad one\nalso bad\n";
    match partitions(table) {
        Err(Error::MalformedRecord(l)) => assert_eq!(l, "bad one"),
        _ => panic!("expected MalformedRecord"),
    }
}

#[test]
fn error_message_names_source_and_line() {
    let e = parse_line("garbage").unwrap_err();
    assert_eq!(e.message(), "malformed mount table record: garbage");
    let e = Error::SourceUnavailable(String::from("no such file"));
    assert_eq!(e.message(), "mount table unavailable: no such file");
}

#[test]
fn physical_is_order_preserving_subsequence() {
    let table = "proc /proc proc rw 0 0\n/dev/sda1 / ext4 rw 0 0\nsysfs /sys sysfs rw 0 0\n/dev/sdb1 /data xfs rw 0 0\ntmpfs /tmp tmpfs rw 0 0\n";
    let all = partitions(table).unwrap();
    assert_eq!(all.len(), 5);
    let physical = partitions_physical(table).unwrap();
    assert_eq!(physical.len(), 2);
    assert_eq!(physical[0].device(), "/dev/sda1");
    assert_eq!(physical[1].device(), "/dev/sdb1");
}

#[test]
fn all_virtual_table_gives_empty_physical_list() {
    let table = "proc /proc proc rw 0 0\ntmpfs /tmp tmpfs rw 0 0\n";
    let physical = partitions_physical(table).unwrap();
    assert!(physical.is_empty());
}

//! The partition record and the parser for one mount-table line.

use vstd::prelude::*;
use crate::fstype::{classify_spec, FileSystem, FsModel};
use crate::text::{split_fields, split_ws, views_of};

verus! {

/// One record of the mount table: a device mounted somewhere under some
/// filesystem type, with its mount options kept verbatim.
#[derive(Debug)]
pub struct Partition {
    device: String,
    mountpoint: String,
    filesystem: FileSystem,
    mount_options: String,
}

/// The mathematical model of a `Partition`: its four fields as character
/// sequences and a filesystem tag.
pub struct PartitionModel {
    pub device: Seq<char>,
    pub mountpoint: Seq<char>,
    pub filesystem: FsModel,
    pub mount_options: Seq<char>,
}

impl View for Partition {
    type V = PartitionModel;

    closed spec fn view(&self) -> PartitionModel {
        PartitionModel {
            device: self.device@,
            mountpoint: self.mountpoint@,
            filesystem: self.filesystem@,
            mount_options: self.mount_options@,
        }
    }
}

impl Clone for Partition {
    /// A clone is equal to the original record.
    fn clone(&self) -> (r: Self)
        ensures
            r == *self,
    {
        Partition {
            device: self.device.clone(),
            mountpoint: self.mountpoint.clone(),
            filesystem: self.filesystem.clone(),
            mount_options: self.mount_options.clone(),
        }
    }
}

/// Why a read of the mount table failed.
#[derive(Debug)]
pub enum Error {
    /// The mount-table text could not be obtained at all. Carries the
    /// description given by the text source.
    SourceUnavailable(String),
    /// A line of the table has fewer than the four required fields.
    /// Carries the offending line verbatim.
    MalformedRecord(String),
}

impl Error {
    /// A human-readable description of the failure, naming the mount
    /// table as the source and keeping the carried detail verbatim.
    pub fn message(&self) -> (r: String)
        ensures
            self matches Error::SourceUnavailable(d) ==> r@ == "mount table unavailable: "@ + d@,
            self matches Error::MalformedRecord(l) ==> r@ == "malformed mount table record: "@
                + l@,
    {
        match *self {
            Error::SourceUnavailable(ref d) => {
                let mut s = String::from_str("mount table unavailable: ");
                s.append(d.as_str());
                s
            },
            Error::MalformedRecord(ref l) => {
                let mut s = String::from_str("malformed mount table record: ");
                s.append(l.as_str());
                s
            },
        }
    }
}

/// A line parses iff it has at least four whitespace-separated fields.
pub open spec fn line_well_formed(line: Seq<char>) -> bool {
    split_ws(line).len() >= 4
}

/// The record a well-formed line denotes: fields one and two verbatim as
/// device and mountpoint, field three classified, field four verbatim as
/// the options string. Trailing fields are ignored.
pub open spec fn line_record(line: Seq<char>) -> PartitionModel {
    let fields = split_ws(line);
    PartitionModel {
        device: fields[0],
        mountpoint: fields[1],
        filesystem: classify_spec(fields[2]),
        mount_options: fields[3],
    }
}

impl Partition {
    /// The device (or pseudo-source) the filesystem is backed by.
    pub fn device(&self) -> (r: &str)
        ensures
            r@ == self@.device,
    {
        self.device.as_str()
    }

    /// The path the filesystem is mounted at, verbatim from the table.
    pub fn mountpoint(&self) -> (r: &str)
        ensures
            r@ == self@.mountpoint,
    {
        self.mountpoint.as_str()
    }

    /// The classified filesystem type.
    pub fn filesystem(&self) -> (r: &FileSystem)
        ensures
            r@ == self@.filesystem,
    {
        &self.filesystem
    }

    /// The comma-joined mount options, verbatim from the table; no
    /// splitting on commas is performed.
    pub fn mount_options(&self) -> (r: &str)
        ensures
            r@ == self@.mount_options,
    {
        self.mount_options.as_str()
    }
}

/// Parses one line of mount-table text into a `Partition`.
///
/// Succeeds exactly on lines with at least four whitespace-separated
/// fields and then captures fields one to four verbatim (the third one
/// classified); any line with fewer fields, the empty line included,
/// yields `Error::MalformedRecord` carrying that line.
pub fn parse_line(line: &str) -> (r: Result<Partition, Error>)
    ensures
        line_well_formed(line@) ==> (r matches Ok(p) && p@ == line_record(line@)),
        !line_well_formed(line@) ==> (r matches Err(e) && (e matches Error::MalformedRecord(l)
            && l@ == line@)),
{
    let fields = split_fields(line);
    proof {
        assert(views_of(fields@).len() == fields@.len());
    }
    if fields.len() < 4 {
        return Err(Error::MalformedRecord(String::from_str(line)));
    }
    let device = fields[0].clone();
    let mountpoint = fields[1].clone();
    let filesystem = FileSystem::classify(fields[2].as_str());
    let mount_options = fields[3].clone();
    let p = Partition { device, mountpoint, filesystem, mount_options };
    proof {
        let f = split_ws(line@);
        assert(p@.device == f[0]);
        assert(p@.mountpoint == f[1]);
        assert(p@.filesystem == classify_spec(f[2]));
        assert(p@.mount_options == f[3]);
    }
    Ok(p)
}

} // verus!

//! Parsing of the Linux mount table into structured partition records.
//!
//! The mount table is line-oriented text, one mounted filesystem per line:
//! `<device> <mountpoint> <fs-type> <mount-options> <dump> <pass>`.
//! This crate turns such text into `Partition` records and classifies each
//! filesystem type as physical (backed by real storage) or virtual.
//! Obtaining the text itself (e.g. reading `/proc/mounts`) is left to the
//! caller, so the parsing logic is a pure function of the text it is given.

mod fstype;
mod partition;
mod reader;
mod text;

pub use reader::{first_malformed, lemma_physical_subsequence, nonempty_of, part_views, partitions, partitions_physical, physical_of, table_lines, table_records};
pub use partition::{Error, Partition, PartitionModel, line_record, line_well_formed, parse_line};
pub use fstype::{FileSystem, FsModel, classify_spec, known_tag, lemma_unrecognized_is_virtual};
pub use text::{is_ws_char, line_len, split_fields, split_into_lines, split_lines, split_ws, token_len, views_of};

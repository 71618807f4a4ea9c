//! Filesystem metadata inspection: given a path and the raw attributes the
//! operating system reports for it, derive a report holding the entry's kind,
//! size, symlink flag, display name and formatted local modification time,
//! together with a decimal size-unit classification.

pub mod name;
pub mod report;
pub mod size;
pub mod timefmt;

pub use name::display_name;
pub use report::{inspect, EntryKind, InspectError, MetadataReport, RawMetadata, Timestamp};
pub use size::{select_unit, SizeUnit};
pub use timefmt::{format_civil, render_local_timestamp, CivilTime};

//! The metadata report and the inspection that builds it. The operating
//! system's raw answers arrive as plain values ([`RawMetadata`]); from them
//! [`inspect`] derives the report or a descriptive failure.

use vstd::prelude::*;

use crate::name::{display_name, spec_display_name};
use crate::timefmt::{
    civil_text, in_chrono_range, local_year_safe, render_local_timestamp, CivilTime,
};

verus! {

/// An instant as the operating system reports it: seconds and nanoseconds
/// since the Unix epoch (seconds negative for instants before it).
#[derive(Clone, Copy, Debug, PartialEq, Eq, Structural)]
pub struct Timestamp {
    pub secs: i64,
    pub nanos: u32,
}

/// The raw attributes the operating system reports for one path. The
/// modification instant is `Err` with the system's error text on platforms
/// that cannot supply one.
pub struct RawMetadata {
    pub size: u64,
    pub is_dir: bool,
    pub is_symlink: bool,
    pub modified: Result<Timestamp, String>,
}

/// Whether the inspected entry is a regular file or a directory.
#[derive(Clone, Copy, Debug, PartialEq, Eq, Structural)]
pub enum EntryKind {
    File,
    Directory,
}

impl EntryKind {
    /// The kind's name as it appears in the report.
    pub fn label(&self) -> (s: &'static str)
        ensures
            s@ == self.spec_label(),
    {
        match self {
            EntryKind::File => "File",
            EntryKind::Directory => "Folder",
        }
    }

    pub open spec fn spec_label(self) -> Seq<char> {
        match self {
            EntryKind::File => "File"@,
            EntryKind::Directory => "Folder"@,
        }
    }
}

/// Why an inspection failed. Each variant carries the inspected path;
/// the first two also carry the underlying error text.
#[derive(Debug)]
pub enum InspectError {
    /// The metadata itself could not be read (missing file, permission
    /// denied).
    Inaccessible { path: String, detail: String },
    /// The platform supplied no usable modification time.
    ClockUnavailable { path: String, detail: String },
    /// The path has no final component to display (the root, for instance).
    UnresolvableName { path: String },
}

impl InspectError {
    pub open spec fn spec_message(self) -> Seq<char> {
        match self {
            InspectError::Inaccessible { path, detail } => "Failed to get metadata for file '"@
                + path@ + "': "@ + detail@,
            InspectError::ClockUnavailable { path, detail } =>
                "Failed to get last modified time for file '"@ + path@ + "': "@ + detail@,
            InspectError::UnresolvableName { path } => "File path could not be resolved: '"@
                + path@ + "'"@,
        }
    }

    /// The human-readable description of the failure.
    pub fn message(&self) -> (s: String)
        ensures
            s@ == self.spec_message(),
    {
        match self {
            InspectError::Inaccessible { path, detail } => {
                let mut s = String::from_str("Failed to get metadata for file '");
                s.append(path.as_str());
                s.append("': ");
                s.append(detail.as_str());
                proof {
                    assert(s@ =~= self.spec_message());
                }
                s
            },
            InspectError::ClockUnavailable { path, detail } => {
                let mut s = String::from_str("Failed to get last modified time for file '");
                s.append(path.as_str());
                s.append("': ");
                s.append(detail.as_str());
                proof {
                    assert(s@ =~= self.spec_message());
                }
                s
            },
            InspectError::UnresolvableName { path } => {
                let mut s = String::from_str("File path could not be resolved: '");
                s.append(path.as_str());
                s.append("'");
                proof {
                    assert(s@ =~= self.spec_message());
                }
                s
            },
        }
    }
}

/// The derived report: everything the tool prints about one path, except the
/// scaled size, which [`crate::select_unit`] classifies separately.
pub struct MetadataReport {
    pub size_bytes: u64,
    pub entry_kind: EntryKind,
    pub is_symlink: bool,
    pub last_modified: String,
    pub display_name: String,
}

/// The error text used when the modification instant lies outside the range
/// the calendar rendering handles.
pub open spec fn out_of_range_text() -> Seq<char> {
    "modification time out of range"@
}

/// What [`inspect`] returns for a given path and fetch outcome. Failures are
/// checked in this order: the fetch itself, then the modification time and
/// its conversion to local civil time, then the display name. A report is
/// owed whenever the metadata and its timestamp were fetched, the timestamp
/// renders in every time zone ([`local_year_safe`]), and the path has a
/// display name; the out-of-range failure is confined to timestamps outside
/// that window. The conversion depends on the machine's time zone, so a
/// successful report pins its `last_modified` text only to the rendered form
/// of some in-range civil time.
pub open spec fn inspect_post(
    path: Seq<char>,
    fetched: Result<RawMetadata, String>,
    r: Result<MetadataReport, InspectError>,
) -> bool {
    match fetched {
        Err(os) => r matches Err(InspectError::Inaccessible { path: p, detail: d })
            && p@ == path && d@ == os@,
        Ok(m) => match m.modified {
            Err(os) => r matches Err(InspectError::ClockUnavailable { path: p, detail: d })
                && p@ == path && d@ == os@,
            Ok(ts) => {
                &&& (local_year_safe(ts.secs as int) && in_chrono_range(
                    ts.secs as int,
                    ts.nanos as int,
                ) && spec_display_name(path) is Some ==> r is Ok)
                &&& match r {
                    Ok(rep) => {
                        &&& spec_display_name(path) == Some(rep.display_name@)
                        &&& rep.size_bytes == m.size
                        &&& rep.entry_kind == (if m.is_dir {
                            EntryKind::Directory
                        } else {
                            EntryKind::File
                        })
                        &&& rep.is_symlink == m.is_symlink
                        &&& exists|c: CivilTime|
                            c.in_ranges() && 0 <= c.year <= 9999 && rep.last_modified@
                                == civil_text(c)
                    },
                    Err(e) => match e {
                        InspectError::ClockUnavailable { path: p, detail: d } => {
                            &&& p@ == path
                            &&& d@ == out_of_range_text()
                            &&& !(local_year_safe(ts.secs as int) && in_chrono_range(
                                ts.secs as int,
                                ts.nanos as int,
                            ))
                        },
                        InspectError::UnresolvableName { path: p } => p@ == path
                            && spec_display_name(path) is None,
                        InspectError::Inaccessible { .. } => false,
                    },
                }
            },
        },
    }
}

/// Derive the report for `path` from the fetched metadata: classify the
/// entry, keep its raw size and symlink flag, render the modification time
/// in local civil time, and extract the display name. `fetched` is `Err`
/// with the system's error text when the metadata could not be read at all.
pub fn inspect(path: &str, fetched: Result<RawMetadata, String>) -> (r: Result<
    MetadataReport,
    InspectError,
>)
    ensures
        inspect_post(path@, fetched, r),
{
    let m = match fetched {
        Ok(m) => m,
        Err(os) => {
            return Err(
                InspectError::Inaccessible { path: String::from_str(path), detail: os },
            );
        },
    };
    let ts = match m.modified {
        Ok(ts) => ts,
        Err(os) => {
            return Err(
                InspectError::ClockUnavailable { path: String::from_str(path), detail: os },
            );
        },
    };
    let last_modified = match render_local_timestamp(ts.secs, ts.nanos) {
        Some(s) => s,
        None => {
            return Err(
                InspectError::ClockUnavailable {
                    path: String::from_str(path),
                    detail: String::from_str("modification time out of range"),
                },
            );
        },
    };
    let name = match display_name(path) {
        Some(n) => n,
        None => {
            return Err(InspectError::UnresolvableName { path: String::from_str(path) });
        },
    };
    let entry_kind = if m.is_dir {
        EntryKind::Directory
    } else {
        EntryKind::File
    };
    Ok(
        MetadataReport {
            size_bytes: m.size,
            entry_kind,
            is_symlink: m.is_symlink,
            last_modified,
            display_name: name,
        },
    )
}

} // verus!

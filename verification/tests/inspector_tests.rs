use chrono::{Datelike, Timelike};
use inspector::{
    display_name, format_civil, inspect, render_local_timestamp, select_unit, CivilTime,
    EntryKind, InspectError, RawMetadata, SizeUnit, Timestamp,
};

fn raw(size: u64, is_dir: bool, is_symlink: bool) -> RawMetadata {
    RawMetadata {
        size,
        is_dir,
        is_symlink,
        modified: Ok(Timestamp { secs: 1_600_000_000, nanos: 0 }),
    }
}

#[test]
fn file_kind_and_raw_size() {
    let report = inspect("report.txt", Ok(raw(1234, false, false))).unwrap();
    assert_eq!(report.entry_kind, EntryKind::File);
    assert_eq!(report.size_bytes, 1234);
    assert_eq!(report.display_name, "report.txt");
    assert!(!report.is_symlink);
}

#[test]
fn directory_kind() {
    let report = inspect("some/dir", Ok(raw(4096, true, false))).unwrap();
    assert_eq!(report.entry_kind, EntryKind::Directory);
    assert_eq!(report.entry_kind.label(), "Folder");
}

#[test]
fn gigabyte_boundary_is_inclusive() {
    assert_eq!(select_unit(1_000_000_000), SizeUnit::Gigabytes);
    assert_eq!(select_unit(u64::MAX), SizeUnit::Gigabytes);
}

#[test]
fn below_gigabyte_boundary_is_megabytes() {
    assert_eq!(select_unit(999_999_999), SizeUnit::Megabytes);
}

#[test]
fn megabyte_boundary_is_inclusive() {
    assert_eq!(select_unit(1_000_000), SizeUnit::Megabytes);
    assert_eq!(select_unit(999_999), SizeUnit::Bytes);
}

#[test]
fn unit_divisors() {
    assert_eq!(SizeUnit::Bytes.divisor(), 1);
    assert_eq!(SizeUnit::Megabytes.divisor(), 1_000_000);
    assert_eq!(SizeUnit::Gigabytes.divisor(), 1_000_000_000);
}

#[test]
fn symlink_flag_is_reported() {
    let link = inspect("link", Ok(raw(11, false, true))).unwrap();
    assert!(link.is_symlink);
    let through = inspect("link", Ok(raw(2048, true, false))).unwrap();
    assert!(!through.is_symlink);
    assert_eq!(through.entry_kind, EntryKind::Directory);
    assert_eq!(through.size_bytes, 2048);
}

#[test]
fn inaccessible_path_error() {
    let os_text = "No such file or directory (os error 2)".to_string();
    let result = inspect("missing.txt", Err(os_text));
    match result {
        Err(InspectError::Inaccessible { ref path, ref detail }) => {
            assert_eq!(path, "missing.txt");
            assert_eq!(detail, "No such file or directory (os error 2)");
        }
        _ => panic!("expected an Inaccessible error"),
    }
    let message = result.err().unwrap().message();
    assert_eq!(
        message,
        "Failed to get metadata for file 'missing.txt': No such file or directory (os error 2)"
    );
}

#[test]
fn clock_unavailable_error() {
    let meta = RawMetadata {
        size: 7,
        is_dir: false,
        is_symlink: false,
        modified: Err("unsupported platform".to_string()),
    };
    let result = inspect("a.txt", Ok(meta));
    assert!(matches!(result, Err(InspectError::ClockUnavailable { .. })));
    assert_eq!(
        result.err().unwrap().message(),
        "Failed to get last modified time for file 'a.txt': unsupported platform"
    );
}

#[test]
fn out_of_range_modification_time() {
    let meta = RawMetadata {
        size: 7,
        is_dir: false,
        is_symlink: false,
        modified: Ok(Timestamp { secs: i64::MAX, nanos: 0 }),
    };
    let result = inspect("a.txt", Ok(meta));
    match result {
        Err(InspectError::ClockUnavailable { path, detail }) => {
            assert_eq!(path, "a.txt");
            assert_eq!(detail, "modification time out of range");
        }
        _ => panic!("expected a ClockUnavailable error"),
    }
}

#[test]
fn unresolvable_name_error() {
    let result = inspect("/", Ok(raw(0, true, false)));
    match result {
        Err(InspectError::UnresolvableName { ref path }) => assert_eq!(path, "/"),
        _ => panic!("expected an UnresolvableName error"),
    }
    assert_eq!(
        result.err().unwrap().message(),
        "File path could not be resolved: '/'"
    );
}

#[test]
fn megabyte_example() {
    let size: u64 = 1_500_000;
    let unit = select_unit(size);
    assert_eq!(unit, SizeUnit::Megabytes);
    let magnitude = size as f64 / unit.divisor() as f64;
    assert_eq!(format!("{} {}", magnitude, unit.label()), "1.5 megabytes");
}

#[test]
fn empty_directory_example() {
    let report = inspect("data/", Ok(raw(0, true, false))).unwrap();
    assert_eq!(report.entry_kind.label(), "Folder");
    assert_eq!(report.display_name, "data");
    let unit = select_unit(report.size_bytes);
    let magnitude = report.size_bytes as f64 / unit.divisor() as f64;
    assert_eq!(format!("{} {}", magnitude, unit.label()), "0 bytes");
}

#[test]
fn civil_time_rendering() {
    let c = CivilTime { year: 2021, month: 3, day: 4, hour: 5, minute: 6, second: 7 };
    assert_eq!(format_civil(&c), "2021-03-04 05:06:07");
    let padded = CivilTime { year: 33, month: 12, day: 31, hour: 23, minute: 59, second: 59 };
    assert_eq!(format_civil(&padded), "0033-12-31 23:59:59");
}

#[test]
fn local_timestamp_matches_calendar_library() {
    let secs: i64 = 1_600_000_000;
    let local = chrono::DateTime::from_timestamp(secs, 0)
        .unwrap()
        .with_timezone(&chrono::Local);
    let expected = format!(
        "{:04}-{:02}-{:02} {:02}:{:02}:{:02}",
        local.year(),
        local.month(),
        local.day(),
        local.hour(),
        local.minute(),
        local.second()
    );
    assert_eq!(render_local_timestamp(secs, 0).unwrap(), expected);
}

#[test]
fn report_carries_rendered_local_time() {
    let report = inspect("report.txt", Ok(raw(5, false, false))).unwrap();
    assert_eq!(report.last_modified, render_local_timestamp(1_600_000_000, 0).unwrap());
    assert_eq!(report.last_modified.len(), 19);
}

#[test]
fn display_name_extraction() {
    assert_eq!(display_name("foo/bar.txt"), Some("bar.txt".to_string()));
    assert_eq!(display_name("bar.txt"), Some("bar.txt".to_string()));
    assert_eq!(display_name("foo/"), Some("foo".to_string()));
    assert_eq!(display_name("foo///"), Some("foo".to_string()));
    assert_eq!(display_name("/usr/bin/tool"), Some("tool".to_string()));
    assert_eq!(display_name("/"), None);
    assert_eq!(display_name(""), None);
    assert_eq!(display_name("."), None);
    assert_eq!(display_name(".."), None);
    assert_eq!(display_name("usr/.."), None);
    assert_eq!(display_name(".hidden"), Some(".hidden".to_string()));
}

#[test]
fn display_name_skips_trailing_dot_components() {
    assert_eq!(display_name("foo/."), Some("foo".to_string()));
    assert_eq!(display_name("foo/./"), Some("foo".to_string()));
    assert_eq!(display_name("foo/./."), Some("foo".to_string()));
    assert_eq!(display_name("./bar"), Some("bar".to_string()));
    assert_eq!(display_name("./"), None);
    assert_eq!(display_name("/."), None);
    assert_eq!(display_name("..."), Some("...".to_string()));
    assert_eq!(display_name("a."), Some("a.".to_string()));
}

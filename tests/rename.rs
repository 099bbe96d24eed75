use exif_rename::metadata::{MetadataScan, TagEntry, DATE_TIME_TAG};
use exif_rename::rename::{plan_rename, Problem};
use exif_rename::resolve::{find_capture, resolve_date, resolve_scan, Unresolved};
use exif_rename::target::{split_source, PathError};
use exif_rename::timestamp::Timestamp;

/// A little-endian TIFF whose first directory holds one ASCII entry.
fn tiff_with_entry(tag: u16, text: &str) -> Vec<u8> {
    let mut data: Vec<u8> = text.as_bytes().to_vec();
    data.push(0);
    let mut b: Vec<u8> = vec![b'I', b'I', 42, 0, 8, 0, 0, 0, 1, 0];
    b.extend_from_slice(&tag.to_le_bytes());
    b.extend_from_slice(&2u16.to_le_bytes());
    b.extend_from_slice(&(data.len() as u32).to_le_bytes());
    b.extend_from_slice(&26u32.to_le_bytes());
    b.extend_from_slice(&[0, 0, 0, 0]);
    b.extend_from_slice(&data);
    b
}

fn photo() -> Vec<u8> {
    tiff_with_entry(0x0132, "2008:07:31 10:05:49")
}

/// A JPEG with a JFIF header and no EXIF section.
fn jpeg_without_exif() -> Vec<u8> {
    let mut b: Vec<u8> = vec![0xff, 0xd8, 0xff, 0xe0, 0x00, 0x10];
    b.extend_from_slice(b"JFIF\0");
    b.extend_from_slice(&[1, 1, 0, 0, 1, 0, 1, 0, 0]);
    b.extend_from_slice(&[0xff, 0xda, 0x00, 0x02]);
    b
}

fn created() -> Timestamp {
    Timestamp { year: 2021, month: 3, day: 4, hour: 5, minute: 6, second: 7 }
}

fn date_problem(r: Result<String, Unresolved>) -> Unresolved {
    match r {
        Err(e) => e,
        Ok(s) => panic!("resolved to {s}"),
    }
}

#[test]
fn renames_file() {
    let plan = match plan_rename("./tmp/renames_file/test_image.jpg", &photo(), Some(created()), None) {
        Ok(p) => p,
        Err(p) => panic!("{}", p.message()),
    };
    assert_eq!(plan.target(false), "./tmp/renames_file/2008_07_31-10_05_49.jpg");
}

#[test]
fn renames_dir() {
    let files = ["./tmp/renames_dir/test_image.jpg", "./tmp/renames_dir/second_test_image.jpg"];
    let mut taken: Vec<String> = Vec::new();
    for (index, file) in files.iter().enumerate() {
        let plan = match plan_rename(file, &photo(), Some(created()), Some(index)) {
            Ok(p) => p,
            Err(p) => panic!("{}", p.message()),
        };
        let exists = taken.contains(&plan.plain_target());
        taken.push(plan.target(exists));
    }
    assert!(taken.contains(&"./tmp/renames_dir/2008_07_31-10_05_49.jpg".to_string()));
    assert!(taken.contains(&"./tmp/renames_dir/2008_07_31-10_05_49(1).jpg".to_string()));
}

#[test]
fn capture_date_gives_stamp() {
    assert_eq!(resolve_date(&photo(), Some(created())).ok(), Some("2008_07_31-10_05_49".to_string()));
}

#[test]
fn jpeg_without_exif_falls_back_on_creation_time() {
    assert_eq!(resolve_date(&jpeg_without_exif(), Some(created())).ok(), Some("2021_03_04-05_06_07".to_string()));
}

#[test]
fn unknown_format_falls_back_on_creation_time() {
    let t = Timestamp { year: 1999, month: 12, day: 31, hour: 23, minute: 59, second: 0 };
    assert_eq!(resolve_date(b"not an image at all", Some(t)).ok(), Some("1999_12_31-23_59_00".to_string()));
}

#[test]
fn metadata_without_capture_date_is_skipped() {
    let bytes = tiff_with_entry(0x010f, "Canon");
    let e = date_problem(resolve_date(&bytes, Some(created())));
    assert!(matches!(e, Unresolved::NoDateFound));
    let p = match plan_rename("./photos/a.jpg", &bytes, Some(created()), Some(0)) {
        Err(p) => p,
        Ok(_) => panic!("planned a rename"),
    };
    assert_eq!(p.message(), "No date found");
}

#[test]
fn broken_metadata_is_an_unexpected_error() {
    let bytes: Vec<u8> = vec![b'I', b'I', 42, 0, 0xf0, 0, 0, 0, 0, 0, 0, 0];
    let e = date_problem(resolve_date(&bytes, Some(created())));
    let p = Problem::Date(e);
    assert!(p.message().starts_with("Unexpected error: "));
}

#[test]
fn malformed_capture_date_is_reported() {
    let bytes = tiff_with_entry(0x0132, "2008-07-31 10:05:49");
    let e = date_problem(resolve_date(&bytes, Some(created())));
    assert_eq!(Problem::Date(e).message(), "Malformed capture date: 2008-07-31 10:05:49");
}

#[test]
fn first_capture_entry_wins() {
    let entries = vec![
        TagEntry { tag: 0x010f, text: "Canon".to_string() },
        TagEntry { tag: DATE_TIME_TAG, text: "2001:02:03 04:05:06".to_string() },
        TagEntry { tag: DATE_TIME_TAG, text: "2011:12:13 14:15:16".to_string() },
    ];
    assert_eq!(find_capture(&entries), Some(1));
    let t = match resolve_scan(&MetadataScan::Tags(entries), Some(created())) {
        Ok(t) => t,
        Err(_) => panic!("not resolved"),
    };
    assert_eq!(t, Timestamp { year: 2001, month: 2, day: 3, hour: 4, minute: 5, second: 6 });
    assert_eq!(find_capture(&Vec::new()), None);
}

#[test]
fn same_stamp_in_one_directory_gets_numbered() {
    let a = split_source("./photos/a.jpg").ok().unwrap();
    let b = split_source("./photos/b.jpg").ok().unwrap();
    let stamp = "2008_07_31-10_05_49";
    let first = a.target(stamp, Some(3), false);
    let second = b.target(stamp, Some(12), true);
    assert_eq!(first, "./photos/2008_07_31-10_05_49.jpg");
    assert_eq!(second, "./photos/2008_07_31-10_05_49(12).jpg");
    assert_ne!(first, second);
    assert_eq!(a.target(stamp, None, true), "./photos/2008_07_31-10_05_49(0).jpg");
}

#[test]
fn renamed_file_has_itself_as_plain_target() {
    let renamed = "./photos/2008_07_31-10_05_49.jpg";
    let parts = split_source(renamed).ok().unwrap();
    assert_eq!(parts.dir, "./photos/");
    assert_eq!(parts.base, "2008_07_31-10_05_49");
    assert_eq!(parts.ext, "jpg");
    assert_eq!(parts.plain_target("2008_07_31-10_05_49"), renamed);
}

#[test]
fn path_without_parent_or_extension_is_refused() {
    assert_eq!(split_source("test_image.jpg").err(), Some(PathError::NoParent));
    assert_eq!(split_source("./photos/noext").err(), Some(PathError::NoExtension));
    assert_eq!(split_source("./photos/.hidden").err(), Some(PathError::NoExtension));
    assert_eq!(split_source("./photos/a.").err(), Some(PathError::NoExtension));
    assert_eq!(split_source("./photos.d/raw").err(), Some(PathError::NoExtension));
    let p = split_source("/a.b.tar").ok().unwrap();
    assert_eq!((p.dir.as_str(), p.base.as_str(), p.ext.as_str()), ("/", "a.b", "tar"));
    let r = plan_rename("test_image.jpg", &photo(), Some(created()), None);
    assert!(matches!(r, Err(Problem::Path(PathError::NoParent))));
    assert_eq!(Problem::Path(PathError::NoExtension).message(), "No file extension in path");
}

#[test]
fn clock_fields_are_checked() {
    assert_eq!(Timestamp::from_clock_fields(2023, 2, 29, 0, 0, 0, 0), None);
    assert!(Timestamp::from_clock_fields(2024, 2, 29, 0, 0, 0, 0).is_some());
    assert!(Timestamp::from_clock_fields(1900, 2, 29, 0, 0, 0, 0).is_none());
    assert!(Timestamp::from_clock_fields(2000, 2, 29, 0, 0, 0, 0).is_some());
    assert_eq!(Timestamp::from_clock_fields(2021, 13, 1, 0, 0, 0, 0), None);
    assert_eq!(Timestamp::from_clock_fields(2021, 1, 1, 24, 0, 0, 0), None);
    assert_eq!(Timestamp::from_clock_fields(2021, 1, 1, 0, 0, 58, 1_000_000_000), None);
    let t = Timestamp::from_clock_fields(2016, 12, 31, 23, 59, 59, 1_000_000_000).unwrap();
    assert_eq!(t.second, 60);
    assert_eq!(t.format_stamp(), "2016_12_31-23_59_60");
    let u = Timestamp::from_clock_fields(2016, 12, 31, 23, 59, 59, 999_999_999).unwrap();
    assert_eq!(u.format_stamp(), "2016_12_31-23_59_59");
}

#[test]
fn stamp_years_outside_four_digits() {
    let t = |year: i32| Timestamp { year, month: 1, day: 2, hour: 3, minute: 4, second: 5 };
    assert_eq!(t(5).format_stamp(), "0005_01_02-03_04_05");
    assert_eq!(t(10000).format_stamp(), "+10000_01_02-03_04_05");
    assert_eq!(t(-5).format_stamp(), "-0005_01_02-03_04_05");
}

#[test]
fn unknown_creation_time_only_matters_without_metadata() {
    assert_eq!(resolve_date(&photo(), None).ok(), Some("2008_07_31-10_05_49".to_string()));
    let e = date_problem(resolve_date(&jpeg_without_exif(), None));
    assert_eq!(Problem::Date(e).message(), "No creation time known");
}

#[test]
fn rerun_on_renamed_file_leaves_it_in_place() {
    let renamed = "./photos/2008_07_31-10_05_49.jpg";
    for index in [None, Some(0), Some(4)] {
        let plan = match plan_rename(renamed, &photo(), Some(created()), index) {
            Ok(p) => p,
            Err(p) => panic!("{}", p.message()),
        };
        assert!(plan.already_named());
        assert_eq!(plan.plain_target(), renamed);
        assert_eq!(plan.target(true), renamed);
        assert_eq!(plan.target(false), renamed);
    }
}

#[test]
fn rerun_after_fallback_leaves_file_in_place() {
    let renamed = "./photos/2021_03_04-05_06_07.jpg";
    let plan = match plan_rename(renamed, &jpeg_without_exif(), Some(created()), Some(2)) {
        Ok(p) => p,
        Err(p) => panic!("{}", p.message()),
    };
    assert!(plan.already_named());
    assert_eq!(plan.target(true), renamed);
    let other = match plan_rename("./photos/2021_03_04-05_06_07.jpg", &photo(), Some(created()), Some(2)) {
        Ok(p) => p,
        Err(p) => panic!("{}", p.message()),
    };
    assert!(!other.already_named());
    assert_eq!(other.target(true), "./photos/2008_07_31-10_05_49(2).jpg");
    assert_eq!(other.target(false), "./photos/2008_07_31-10_05_49.jpg");
}

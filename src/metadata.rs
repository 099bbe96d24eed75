use vstd::prelude::*;
use vstd::string::*;
use crate::timestamp::{valid_clock, ClockFields, Timestamp};
use chrono::{Datelike, Timelike};

verus! {

/// The EXIF tag number of the image's date and time.
pub const DATE_TIME_TAG: u32 = 0x132;

/// One metadata entry: its tag number and its value as text.
pub struct TagEntry {
    pub tag: u32,
    pub text: String,
}

/// What reading a file's embedded metadata found.
pub enum MetadataScan {
    /// A metadata container with these entries, in the order they were read.
    Tags(Vec<TagEntry>),
    /// A recognized image format that holds no metadata.
    NoMetadata,
    /// A format that is not recognized.
    UnknownFormat,
    /// A metadata container that is broken; the text says how.
    Malformed(String),
}

pub ghost enum ScanView {
    Tags(Seq<(u32, Seq<char>)>),
    NoMetadata,
    UnknownFormat,
    Malformed(Seq<char>),
}

pub open spec fn entries_view(entries: Seq<TagEntry>) -> Seq<(u32, Seq<char>)> {
    entries.map_values(|e: TagEntry| (e.tag, e.text@))
}

impl View for MetadataScan {
    type V = ScanView;

    open spec fn view(&self) -> ScanView {
        match self {
            MetadataScan::Tags(entries) => ScanView::Tags(entries_view(entries@)),
            MetadataScan::NoMetadata => ScanView::NoMetadata,
            MetadataScan::UnknownFormat => ScanView::UnknownFormat,
            MetadataScan::Malformed(m) => ScanView::Malformed(m@),
        }
    }
}

/// What the EXIF reader finds in these bytes.
pub uninterp spec fn exif_scan_of(bytes: Seq<u8>) -> ScanView;

/// What the date-time library reads from a capture date written
/// `YYYY:MM:DD HH:MM:SS`, or `None` where it reads no date.
pub uninterp spec fn parsed_capture(text: Seq<char>) -> Option<ClockFields>;

/// Relies on rexif's `parse_buffer_quiet`: the result depends on the bytes
/// alone, and fewer than eleven bytes are no known file type. Entries keep
/// their order; each tag is given by its number and each value by its text.
#[verifier::external_body]
pub(crate) fn read_exif(bytes: &[u8]) -> (r: MetadataScan)
    ensures
        r@ == exif_scan_of(bytes@),
        bytes@.len() < 11 ==> r@ == ScanView::UnknownFormat,
{
    match rexif::parse_buffer_quiet(bytes).0 {
        Ok(data) => MetadataScan::Tags(
            data.entries.iter().map(|e| TagEntry { tag: e.tag as u32, text: e.value.to_string() }).collect(),
        ),
        Err(rexif::ExifError::JpegWithoutExif(_)) => MetadataScan::NoMetadata,
        Err(rexif::ExifError::FileTypeUnknown) => MetadataScan::UnknownFormat,
        Err(e) => MetadataScan::Malformed(e.to_string()),
    }
}

/// Relies on chrono's `NaiveDateTime::parse_from_str` with the pattern
/// `%Y:%m:%d %H:%M:%S`: what it gives is a valid date and time; the text of a
/// valid timestamp from year 0 to 9999 is read back as that timestamp, a second
/// of 60 as the leap second after 59.
#[verifier::external_body]
pub(crate) fn parse_capture(text: &str) -> (r: Option<ClockFields>)
    ensures
        r == parsed_capture(text@),
        r matches Some(f) ==> valid_clock(f),
        forall|t: Timestamp|
            t.wf() && 0 <= t.year <= 9999 && text@ == t.capture_text() ==> r == Some(t.clock()),
{
    chrono::NaiveDateTime::parse_from_str(text, "%Y:%m:%d %H:%M:%S").ok().map(
        |d| (d.year(), d.month(), d.day(), d.hour(), d.minute(), d.second(), d.nanosecond()),
    )
}

} // verus!

use vstd::prelude::*;
use vstd::string::*;
use crate::metadata::{
    entries_view, exif_scan_of, parse_capture, parsed_capture, read_exif, MetadataScan, ScanView,
    TagEntry, DATE_TIME_TAG,
};
use crate::timestamp::{timestamp_of, Timestamp, NANOS_PER_SECOND};

verus! {

/// Why a file gets no date.
pub enum Unresolved {
    /// The metadata holds no capture date.
    NoDateFound,
    /// The metadata is broken; the text says how.
    UnexpectedError(String),
    /// The capture date is not written `YYYY:MM:DD HH:MM:SS`; the text is what it holds.
    MalformedDate(String),
    /// There is no metadata to read and the file's creation time is not known.
    NoCreationTime,
}

pub ghost enum UnresolvedView {
    NoDateFound,
    UnexpectedError(Seq<char>),
    MalformedDate(Seq<char>),
    NoCreationTime,
}

impl View for Unresolved {
    type V = UnresolvedView;

    open spec fn view(&self) -> UnresolvedView {
        match self {
            Unresolved::NoDateFound => UnresolvedView::NoDateFound,
            Unresolved::UnexpectedError(m) => UnresolvedView::UnexpectedError(m@),
            Unresolved::MalformedDate(m) => UnresolvedView::MalformedDate(m@),
            Unresolved::NoCreationTime => UnresolvedView::NoCreationTime,
        }
    }
}

/// Entry `i` is the first that holds the capture date.
pub open spec fn is_first_capture(entries: Seq<(u32, Seq<char>)>, i: int) -> bool {
    &&& 0 <= i < entries.len()
    &&& entries[i].0 == DATE_TIME_TAG
    &&& forall|j: int| 0 <= j < i ==> entries[j].0 != DATE_TIME_TAG
}

/// The text of the first entry that holds the capture date, if any does.
pub open spec fn first_capture(entries: Seq<(u32, Seq<char>)>) -> Option<Seq<char>> {
    if exists|i: int| is_first_capture(entries, i) {
        Some(entries[choose|i: int| is_first_capture(entries, i)].1)
    } else {
        None
    }
}

/// The date a file with this metadata is named after: the capture date where
/// there is one, the creation time where there is no metadata to read.
pub open spec fn resolution(scan: ScanView, created: Option<Timestamp>) -> Result<
    Timestamp,
    UnresolvedView,
> {
    match scan {
        ScanView::Tags(entries) => match first_capture(entries) {
            None => Err(UnresolvedView::NoDateFound),
            Some(text) => match parsed_capture(text) {
                Some(f) => Ok(timestamp_of(f)),
                None => Err(UnresolvedView::MalformedDate(text)),
            },
        },
        ScanView::NoMetadata | ScanView::UnknownFormat => match created {
            Some(t) => Ok(t),
            None => Err(UnresolvedView::NoCreationTime),
        },
        ScanView::Malformed(m) => Err(UnresolvedView::UnexpectedError(m)),
    }
}

proof fn lemma_first_capture_at(entries: Seq<(u32, Seq<char>)>, i: int)
    requires
        is_first_capture(entries, i),
    ensures
        first_capture(entries) == Some(entries[i].1),
{
    let k = choose|k: int| is_first_capture(entries, k);
    assert(is_first_capture(entries, k));
    if k < i {
        assert(entries[k].0 != DATE_TIME_TAG);
    } else if i < k {
        assert(entries[i].0 != DATE_TIME_TAG);
    }
}

/// The position of the first entry that holds the capture date.
pub fn find_capture(entries: &Vec<TagEntry>) -> (r: Option<usize>)
    ensures
        match r {
            Some(i) => is_first_capture(entries_view(entries@), i as int),
            None => forall|j: int| 0 <= j < entries@.len() ==> entries@[j].tag != DATE_TIME_TAG,
        },
{
    let mut i: usize = 0;
    while i < entries.len()
        invariant
            i <= entries@.len(),
            forall|j: int| 0 <= j < i ==> entries@[j].tag != DATE_TIME_TAG,
        decreases entries@.len() - i,
    {
        if entries[i].tag == DATE_TIME_TAG {
            return Some(i);
        }
        i += 1;
    }
    None
}

/// The date of a file from what its metadata scan found, falling back on its
/// creation time `created` where it is known.
pub fn resolve_scan(scan: &MetadataScan, created: Option<Timestamp>) -> (r: Result<
    Timestamp,
    Unresolved,
>)
    requires
        created matches Some(c) ==> c.wf(),
    ensures
        match r {
            Ok(t) => resolution(scan@, created) == Ok::<Timestamp, UnresolvedView>(t) && t.wf(),
            Err(e) => resolution(scan@, created) == Err::<Timestamp, UnresolvedView>(e@),
        },
        forall|t: Timestamp|
            #![auto]
            (scan@ matches ScanView::Tags(entries) && first_capture(entries) == Some(
                t.capture_text(),
            )) && t.wf() && 0 <= t.year <= 9999 ==> (r matches Ok(u) && u == t),
{
    match scan {
        MetadataScan::Tags(entries) => {
            let ghost es = entries_view(entries@);
            match find_capture(entries) {
                None => {
                    assert forall|i: int| !is_first_capture(es, i) by {
                        if 0 <= i < es.len() {
                            assert(es[i].0 == entries@[i].tag);
                        }
                    }
                    Err(Unresolved::NoDateFound)
                },
                Some(i) => {
                    proof {
                        lemma_first_capture_at(es, i as int);
                    }
                    let text = entries[i].text.as_str();
                    assert(es[i as int].1 == text@);
                    match parse_capture(text) {
                        Some(f) => {
                            let ghost t = timestamp_of(f);
                            assert(t.wf());
                            assert forall|u: Timestamp|
                                #![auto]
                                text@ == u.capture_text() && u.wf() && 0 <= u.year <= 9999 implies t
                                == u by {
                                assert(f == u.clock());
                            }
                            Ok(Timestamp {
                                year: f.0,
                                month: f.1,
                                day: f.2,
                                hour: f.3,
                                minute: f.4,
                                second: if f.6 >= NANOS_PER_SECOND {
                                    60
                                } else {
                                    f.5
                                },
                            })
                        },
                        None => Err(Unresolved::MalformedDate(text.to_owned())),
                    }
                },
            }
        },
        MetadataScan::NoMetadata | MetadataScan::UnknownFormat => match created {
            Some(c) => Ok(c),
            None => Err(Unresolved::NoCreationTime),
        },
        MetadataScan::Malformed(m) => Err(Unresolved::UnexpectedError(m.clone())),
    }
}

/// The stamp, `YYYY_MM_DD-HH_MM_SS`, that a file with these contents is named
/// after, falling back on its creation time `created` where it is known.
pub fn resolve_date(contents: &[u8], created: Option<Timestamp>) -> (r: Result<String, Unresolved>)
    requires
        created matches Some(c) ==> c.wf(),
    ensures
        match r {
            Ok(s) => resolution(exif_scan_of(contents@), created) matches Ok(t) && s@ == t.stamp(),
            Err(e) => resolution(exif_scan_of(contents@), created) == Err::<Timestamp, UnresolvedView>(
                e@,
            ),
        },
{
    let scan = read_exif(contents);
    match resolve_scan(&scan, created) {
        Ok(t) => Ok(t.format_stamp()),
        Err(e) => Err(e),
    }
}

} // verus!

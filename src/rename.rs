use vstd::prelude::*;
use vstd::string::*;
use crate::metadata::exif_scan_of;
use crate::resolve::{resolution, resolve_date, Unresolved, UnresolvedView};
use crate::target::{
    chosen_target_of, has_split, lemma_split_unique, plain_target_of, split_source, splits_as,
    PathError, SourceParts,
};
use crate::text::lacks;
use crate::timestamp::Timestamp;

verus! {

/// Why a file is left as it is.
pub enum Problem {
    /// No date could be found for it.
    Date(Unresolved),
    /// Its path cannot take a new name.
    Path(PathError),
}

/// How a file is to be renamed: the pieces of its path, the stamp it is named
/// after, and its position in a batch (none for a single file).
pub struct RenamePlan {
    pub parts: SourceParts,
    pub stamp: String,
    pub index: Option<usize>,
}

/// Decides how the file at `path` with `contents` and creation time `created`
/// (where it is known) is to be renamed, or why it is left as it is. The date
/// comes first: a file without one is skipped whatever its path.
pub fn plan_rename(
    path: &str,
    contents: &[u8],
    created: Option<Timestamp>,
    index: Option<usize>,
) -> (r: Result<RenamePlan, Problem>)
    requires
        created matches Some(c) ==> c.wf(),
    ensures
        match resolution(exif_scan_of(contents@), created) {
            Err(e) => r matches Err(Problem::Date(d)) && d@ == e,
            Ok(t) => if lacks(path@, '/') {
                r matches Err(Problem::Path(PathError::NoParent))
            } else if !has_split(path@) {
                r matches Err(Problem::Path(PathError::NoExtension))
            } else {
                r matches Ok(p) && p.stamp@ == t.stamp() && p.index == index && splits_as(
                    path@,
                    p.parts.dir@,
                    p.parts.base@,
                    p.parts.ext@,
                )
            },
        },
{
    let stamp = match resolve_date(contents, created) {
        Ok(s) => s,
        Err(e) => {
            return Err(Problem::Date(e));
        },
    };
    match split_source(path) {
        Ok(parts) => Ok(RenamePlan { parts, stamp, index }),
        Err(e) => Err(Problem::Path(e)),
    }
}

/// The path a planned file is moved to. A file whose name already is its stamp
/// stays where it is; any other takes its plain target, or the numbered one
/// where the plain target exists.
pub open spec fn planned_target_of(
    dir: Seq<char>,
    base: Seq<char>,
    stamp: Seq<char>,
    ext: Seq<char>,
    index: Option<usize>,
    plain_exists: bool,
) -> Seq<char> {
    if base == stamp {
        plain_target_of(dir, stamp, ext)
    } else {
        chosen_target_of(dir, stamp, ext, index, plain_exists)
    }
}

/// Handling again a file that already carries the name of its date leaves it
/// where it is: however its path is split, the planned target is the path
/// itself, whatever its batch position and whatever exists on disk.
pub proof fn lemma_rerun_leaves_file_in_place(
    path: Seq<char>,
    dir: Seq<char>,
    ext: Seq<char>,
    date: Timestamp,
    index: Option<usize>,
    plain_exists: bool,
)
    requires
        splits_as(path, dir, date.stamp(), ext),
    ensures
        forall|d: Seq<char>, b: Seq<char>, e: Seq<char>|
            splits_as(path, d, b, e) ==> b == date.stamp() && planned_target_of(
                d,
                b,
                date.stamp(),
                e,
                index,
                plain_exists,
            ) == path,
{
    assert forall|d: Seq<char>, b: Seq<char>, e: Seq<char>| splits_as(path, d, b, e) implies b
        == date.stamp() && planned_target_of(d, b, date.stamp(), e, index, plain_exists) == path by {
        lemma_split_unique(path, d, b, e, dir, date.stamp(), ext);
    }
}

impl RenamePlan {
    /// Whether the file already carries the name of its stamp, so that it stays
    /// where it is.
    pub fn already_named(&self) -> (r: bool)
        ensures
            r == (self.parts.base@ == self.stamp@),
    {
        self.parts.base == self.stamp
    }

    /// The path the file takes where nothing is in the way.
    pub fn plain_target(&self) -> (r: String)
        ensures
            r@ == plain_target_of(self.parts.dir@, self.stamp@, self.parts.ext@),
    {
        self.parts.plain_target(self.stamp.as_str())
    }

    /// The path the file is moved to, given whether its plain target exists: its
    /// own path where its name already is its stamp.
    pub fn target(&self, plain_exists: bool) -> (r: String)
        ensures
            r@ == planned_target_of(
                self.parts.dir@,
                self.parts.base@,
                self.stamp@,
                self.parts.ext@,
                self.index,
                plain_exists,
            ),
            self.parts.base@ == self.stamp@ ==> r@ == plain_target_of(
                self.parts.dir@,
                self.stamp@,
                self.parts.ext@,
            ),
            self.parts.base@ != self.stamp@ ==> r@ == chosen_target_of(
                self.parts.dir@,
                self.stamp@,
                self.parts.ext@,
                self.index,
                plain_exists,
            ),
    {
        if self.already_named() {
            self.parts.plain_target(self.stamp.as_str())
        } else {
            self.parts.target(self.stamp.as_str(), self.index, plain_exists)
        }
    }
}

/// The line reported for a file that is left as it is.
pub open spec fn problem_text(p: Problem) -> Seq<char> {
    match p {
        Problem::Date(Unresolved::NoDateFound) => "No date found"@,
        Problem::Date(Unresolved::UnexpectedError(m)) => "Unexpected error: "@ + m@,
        Problem::Date(Unresolved::MalformedDate(m)) => "Malformed capture date: "@ + m@,
        Problem::Date(Unresolved::NoCreationTime) => "No creation time known"@,
        Problem::Path(PathError::NoParent) => "No parent directory in path"@,
        Problem::Path(PathError::NoExtension) => "No file extension in path"@,
    }
}

impl Problem {
    /// The line reported for a file that is left as it is.
    pub fn message(&self) -> (r: String)
        ensures
            r@ == problem_text(*self),
    {
        match self {
            Problem::Date(Unresolved::NoDateFound) => String::from_str("No date found"),
            Problem::Date(Unresolved::UnexpectedError(m)) => {
                let mut s = String::from_str("Unexpected error: ");
                s.append(m.as_str());
                s
            },
            Problem::Date(Unresolved::MalformedDate(m)) => {
                let mut s = String::from_str("Malformed capture date: ");
                s.append(m.as_str());
                s
            },
            Problem::Date(Unresolved::NoCreationTime) => String::from_str("No creation time known"),
            Problem::Path(PathError::NoParent) => String::from_str("No parent directory in path"),
            Problem::Path(PathError::NoExtension) => String::from_str("No file extension in path"),
        }
    }
}

} // verus!

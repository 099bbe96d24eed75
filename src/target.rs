use vstd::prelude::*;
use vstd::string::*;
use crate::text::{decimal, lacks, lemma_decimal_digits, lemma_decimal_injective, push_decimal};
use crate::timestamp::{lemma_stamp_is_a_name, Timestamp};

verus! {

/// The pieces of a source path `<dir><base>.<ext>`: `dir` ends in `/`.
pub struct SourceParts {
    pub dir: String,
    pub base: String,
    pub ext: String,
}

/// Why a source path cannot be renamed.
#[derive(Clone, Copy, Debug, PartialEq, Eq, Structural)]
pub enum PathError {
    /// The path names no directory: it holds no `/`.
    NoParent,
    /// The file name has no extension, or nothing in front of it.
    NoExtension,
}

/// `path` is `dir`, then `base`, a dot and `ext`, where `dir` ends in the last
/// `/` of the path and the dot is the last of the file name.
pub open spec fn splits_as(path: Seq<char>, dir: Seq<char>, base: Seq<char>, ext: Seq<char>) -> bool {
    &&& path == dir + base + seq!['.'] + ext
    &&& dir.len() > 0
    &&& dir.last() == '/'
    &&& base.len() > 0
    &&& lacks(base, '/')
    &&& ext.len() > 0
    &&& lacks(ext, '/')
    &&& lacks(ext, '.')
}

pub open spec fn has_split(path: Seq<char>) -> bool {
    exists|x: (Seq<char>, Seq<char>, Seq<char>)| splits_as(path, x.0, x.1, x.2)
}

/// The path a file is renamed to where nothing is in the way: `<dir><stamp>.<ext>`.
pub open spec fn plain_target_of(dir: Seq<char>, stamp: Seq<char>, ext: Seq<char>) -> Seq<char> {
    dir + stamp + seq!['.'] + ext
}

/// The path a file is renamed to where the plain one is taken: `<dir><stamp>(<n>).<ext>`.
pub open spec fn numbered_target_of(dir: Seq<char>, stamp: Seq<char>, n: nat, ext: Seq<char>) -> Seq<char> {
    dir + stamp + seq!['('] + decimal(n) + seq![')', '.'] + ext
}

/// The path chosen for a file with batch position `index` (none for a single
/// file, which counts as 0), given whether the plain target already exists.
pub open spec fn chosen_target_of(
    dir: Seq<char>,
    stamp: Seq<char>,
    ext: Seq<char>,
    index: Option<usize>,
    plain_exists: bool,
) -> Seq<char> {
    if plain_exists {
        numbered_target_of(
            dir,
            stamp,
            match index {
                Some(i) => i as nat,
                None => 0,
            },
            ext,
        )
    } else {
        plain_target_of(dir, stamp, ext)
    }
}

/// Where the marks of a split stand: the last `/` closes `dir`, and the last
/// dot follows `base`.
proof fn lemma_split_marks(path: Seq<char>, dir: Seq<char>, base: Seq<char>, ext: Seq<char>)
    requires
        splits_as(path, dir, base, ext),
    ensures
        path.len() == dir.len() + base.len() + 1 + ext.len(),
        path[dir.len() - 1] == '/',
        forall|j: int| dir.len() <= j < path.len() ==> path[j] != '/',
        path[dir.len() + base.len() as int] == '.',
        forall|j: int| dir.len() + base.len() < j < path.len() ==> path[j] != '.',
{
    let db = dir + base;
    let dbd = db + seq!['.'];
    assert(path == dbd + ext);
    assert(path[dir.len() - 1] == db[dir.len() - 1]);
    assert(path[dir.len() + base.len() as int] == dbd[dir.len() + base.len() as int]);
    assert forall|j: int| dir.len() <= j < path.len() implies path[j] != '/' by {
        if j < dir.len() + base.len() {
            assert(path[j] == base[j - dir.len()]);
        } else if j > dir.len() + base.len() {
            assert(path[j] == ext[j - dir.len() - base.len() - 1]);
        }
    }
    assert forall|j: int| dir.len() + base.len() < j < path.len() implies path[j] != '.' by {
        assert(path[j] == ext[j - dir.len() - base.len() - 1]);
    }
}

/// A path splits in at most one way.
pub proof fn lemma_split_unique(
    path: Seq<char>,
    dir1: Seq<char>,
    base1: Seq<char>,
    ext1: Seq<char>,
    dir2: Seq<char>,
    base2: Seq<char>,
    ext2: Seq<char>,
)
    requires
        splits_as(path, dir1, base1, ext1),
        splits_as(path, dir2, base2, ext2),
    ensures
        dir1 == dir2,
        base1 == base2,
        ext1 == ext2,
{
    lemma_split_marks(path, dir1, base1, ext1);
    lemma_split_marks(path, dir2, base2, ext2);
    assert(dir1.len() == dir2.len());
    assert(base1.len() == base2.len());
    let a = dir1.len() as int;
    let b = a + base1.len();
    assert(dir1 =~= path.subrange(0, a));
    assert(dir2 =~= path.subrange(0, a));
    assert(base1 =~= path.subrange(a, b));
    assert(base2 =~= path.subrange(a, b));
    assert(ext1 =~= path.subrange(b + 1, path.len() as int));
    assert(ext2 =~= path.subrange(b + 1, path.len() as int));
}

/// Splits a source path into its directory, base name and extension.
pub fn split_source(path: &str) -> (r: Result<SourceParts, PathError>)
    ensures
        r matches Ok(p) ==> splits_as(path@, p.dir@, p.base@, p.ext@),
        r matches Err(PathError::NoParent) <==> lacks(path@, '/'),
        r matches Err(PathError::NoExtension) <==> !lacks(path@, '/') && !has_split(path@),
{
    let n = path.unicode_len();
    let mut i: usize = n;
    while i > 0
        invariant
            i <= n == path@.len(),
            forall|j: int| i <= j < n ==> path@[j] != '/',
        ensures
            i == 0 || path@[i - 1] == '/',
            forall|j: int| i <= j < n ==> path@[j] != '/',
        decreases i,
    {
        if path.get_char(i - 1) == '/' {
            break;
        }
        i -= 1;
    }
    if i == 0 {
        return Err(PathError::NoParent);
    }
    assert(path@[i - 1] == '/');
    let mut q: usize = n;
    while q > i
        invariant
            i <= q <= n == path@.len(),
            forall|j: int| q <= j < n ==> path@[j] != '.',
        ensures
            i <= q <= n,
            q == i || path@[q - 1] == '.',
            forall|j: int| q <= j < n ==> path@[j] != '.',
        decreases q,
    {
        if path.get_char(q - 1) == '.' {
            break;
        }
        q -= 1;
    }
    if q - i <= 1 || q >= n {
        proof {
            if has_split(path@) {
                let x = choose|x: (Seq<char>, Seq<char>, Seq<char>)| splits_as(path@, x.0, x.1, x.2);
                lemma_split_marks(path@, x.0, x.1, x.2);
                assert(x.0.len() == i);
                let dot = x.0.len() + x.1.len() as int;
                if q == i {
                    assert(path@[dot] == '.');
                } else {
                    assert(path@[q - 1] == '.');
                    assert(q - 1 == dot);
                }
            }
        }
        return Err(PathError::NoExtension);
    }
    let dir = path.substring_char(0, i).to_owned();
    let base = path.substring_char(i, q - 1).to_owned();
    let ext = path.substring_char(q, n).to_owned();
    assert(path@ =~= dir@ + base@ + seq!['.'] + ext@);
    let ghost x = (dir@, base@, ext@);
    assert(splits_as(path@, x.0, x.1, x.2));
    Ok(SourceParts { dir, base, ext })
}

/// Appends `s` to `out`.
fn push_str(out: &mut String, s: &str)
    ensures
        final(out)@ == old(out)@ + s@,
{
    out.append(s);
}

impl SourceParts {
    /// `<dir><stamp>.<ext>`.
    pub fn plain_target(&self, stamp: &str) -> (r: String)
        ensures
            r@ == plain_target_of(self.dir@, stamp@, self.ext@),
    {
        let mut out = self.dir.clone();
        push_str(&mut out, stamp);
        proof {
            reveal_strlit(".");
        }
        push_str(&mut out, ".");
        push_str(&mut out, self.ext.as_str());
        out
    }

    /// `<dir><stamp>(<n>).<ext>`.
    pub fn numbered_target(&self, stamp: &str, n: usize) -> (r: String)
        ensures
            r@ == numbered_target_of(self.dir@, stamp@, n as nat, self.ext@),
    {
        let mut out = self.dir.clone();
        push_str(&mut out, stamp);
        proof {
            reveal_strlit("(");
            reveal_strlit(").");
        }
        push_str(&mut out, "(");
        push_decimal(&mut out, n as u64);
        push_str(&mut out, ").");
        push_str(&mut out, self.ext.as_str());
        assert(out@ =~= numbered_target_of(self.dir@, stamp@, n as nat, self.ext@));
        out
    }

    /// The path to rename to: the plain target, or, where that already exists,
    /// the target numbered with the batch position `index` (0 for a single file).
    pub fn target(&self, stamp: &str, index: Option<usize>, plain_exists: bool) -> (r: String)
        ensures
            r@ == chosen_target_of(self.dir@, stamp@, self.ext@, index, plain_exists),
    {
        if plain_exists {
            let n = match index {
                Some(i) => i,
                None => 0,
            };
            self.numbered_target(stamp, n)
        } else {
            self.plain_target(stamp)
        }
    }
}

/// Two files that resolve to the same stamp in one directory, handled one after
/// the other with different batch positions, land on different paths. Where the
/// plain target was free, the first takes it and the second the path numbered
/// with its own position.
pub proof fn lemma_collision_disambiguated(
    dir: Seq<char>,
    stamp: Seq<char>,
    ext: Seq<char>,
    first: usize,
    second: usize,
    plain_existed: bool,
)
    requires
        first != second,
    ensures
        chosen_target_of(dir, stamp, ext, Some(first), plain_existed) != chosen_target_of(
            dir,
            stamp,
            ext,
            Some(second),
            true,
        ),
        !plain_existed ==> chosen_target_of(dir, stamp, ext, Some(first), plain_existed)
            == plain_target_of(dir, stamp, ext),
        chosen_target_of(dir, stamp, ext, Some(second), true) == numbered_target_of(
            dir,
            stamp,
            second as nat,
            ext,
        ),
{
    let p = dir + stamp;
    let a = decimal(first as nat);
    let b = decimal(second as nat);
    let t2 = numbered_target_of(dir, stamp, second as nat, ext);
    lemma_decimal_digits(first as nat);
    lemma_decimal_digits(second as nat);
    assert(t2 == ((p + seq!['(']) + b) + seq![')', '.'] + ext);
    if !plain_existed {
        let t1 = plain_target_of(dir, stamp, ext);
        assert(t1[p.len() as int] == '.');
        assert(t2[p.len() as int] == '(');
    } else {
        let t1 = numbered_target_of(dir, stamp, first as nat, ext);
        assert(t1 == ((p + seq!['(']) + a) + seq![')', '.'] + ext);
        if t1 == t2 {
            let s = p.len() + 1 as int;
            if a.len() == b.len() {
                assert forall|j: int| 0 <= j < a.len() implies a[j] == b[j] by {
                    assert(t1[s + j] == a[j]);
                    assert(t2[s + j] == b[j]);
                }
                assert(a =~= b);
                lemma_decimal_injective(first as nat, second as nat);
            } else if a.len() < b.len() {
                assert(t1[s + a.len()] == ')');
                assert(t2[s + a.len()] == b[a.len() as int]);
            } else {
                assert(t2[s + b.len()] == ')');
                assert(t1[s + b.len()] == a[b.len() as int]);
            }
        }
    }
}

/// Renaming keeps a path's directory and extension, and the renamed path splits
/// back into them and the stamp: handled again with the same date, a renamed
/// file has itself as plain target.
pub proof fn lemma_renamed_path_stable(
    path: Seq<char>,
    dir: Seq<char>,
    base: Seq<char>,
    ext: Seq<char>,
    date: Timestamp,
)
    requires
        splits_as(path, dir, base, ext),
        date.wf(),
    ensures
        splits_as(plain_target_of(dir, date.stamp(), ext), dir, date.stamp(), ext),
        forall|d: Seq<char>, b: Seq<char>, e: Seq<char>|
            splits_as(plain_target_of(dir, date.stamp(), ext), d, b, e) ==> plain_target_of(
                d,
                date.stamp(),
                e,
            ) == plain_target_of(dir, date.stamp(), ext),
{
    let stamp = date.stamp();
    lemma_stamp_is_a_name(date);
    let t = plain_target_of(dir, stamp, ext);
    assert forall|d: Seq<char>, b: Seq<char>, e: Seq<char>|
        splits_as(t, d, b, e) implies plain_target_of(d, stamp, e) == t by {
        lemma_split_unique(t, d, b, e, dir, stamp, ext);
    }
}

} // verus!

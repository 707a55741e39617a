//! Pure string logic for the small part of path handling the pipeline needs:
//! the file name of an artifact path, its extension, and the target of a
//! rename.  A path is modelled as its character sequence; the file name is the
//! portion after the last `/` once trailing slashes are dropped, and the
//! extension is the portion of the file name after its last `.`, provided that
//! dot is not the leading character.

use vstd::prelude::*;

verus! {

/// Index of the last occurrence of `c` in `s`, or `-1` when `c` does not occur.
pub open spec fn last_occurrence(s: Seq<char>, c: char) -> int
    decreases s.len(),
{
    if s.len() == 0 {
        -1
    } else if s[s.len() - 1] == c {
        s.len() - 1
    } else {
        last_occurrence(s.drop_last(), c)
    }
}

pub proof fn lemma_last_occurrence_push(s: Seq<char>, c: char, x: char)
    ensures
        last_occurrence(s.push(x), c) == if x == c {
            s.len() as int
        } else {
            last_occurrence(s, c)
        },
{
    let t = s.push(x);
    assert(t[t.len() - 1] == x);
    if x != c {
        assert(t.drop_last() =~= s);
    }
}

/// `s` with every trailing `/` removed.
pub open spec fn trim_trailing_slashes(s: Seq<char>) -> Seq<char>
    decreases s.len(),
{
    if s.len() > 0 && s[s.len() - 1] == '/' {
        trim_trailing_slashes(s.drop_last())
    } else {
        s
    }
}

/// The portion of `p` after its last `/`, trailing slashes dropped first.
pub open spec fn raw_file_name(p: Seq<char>) -> Seq<char> {
    let q = trim_trailing_slashes(p);
    q.subrange(last_occurrence(q, '/') + 1, q.len() as int)
}

/// A component that names a file, as opposed to being empty, `.` or `..`.
pub open spec fn is_regular_name(f: Seq<char>) -> bool {
    &&& f.len() > 0
    &&& !(f.len() == 1 && f[0] == '.')
    &&& !(f.len() == 2 && f[0] == '.' && f[1] == '.')
}

pub open spec fn has_file_name(p: Seq<char>) -> bool {
    is_regular_name(raw_file_name(p))
}

/// The file name of `p`, or `"file"` when `p` has none.
pub open spec fn file_name_or_default(p: Seq<char>) -> Seq<char> {
    if has_file_name(p) {
        raw_file_name(p)
    } else {
        "file"@
    }
}

/// Whether the file name of `p` carries an extension: it holds a `.` that is
/// neither its first character nor absent.
pub open spec fn has_extension(p: Seq<char>) -> bool {
    has_file_name(p) && last_occurrence(raw_file_name(p), '.') > 0
}

/// The portion of the file name after its last `.` (empty for names that end
/// in a dot).  Meaningful only when `has_extension(p)` holds.
pub open spec fn extension_of(p: Seq<char>) -> Seq<char> {
    let f = raw_file_name(p);
    f.subrange(last_occurrence(f, '.') + 1, f.len() as int)
}

/// Whether `p` has a parent directory: everything but the empty path and the
/// bare root.
pub open spec fn has_parent(p: Seq<char>) -> bool {
    trim_trailing_slashes(p).len() > 0
}

/// The directory portion of `p`, up to and including its last `/` (empty for
/// a bare file name).
pub open spec fn dir_prefix_of(p: Seq<char>) -> Seq<char> {
    let q = trim_trailing_slashes(p);
    q.subrange(0, last_occurrence(q, '/') + 1)
}

/// The sibling path of `p` whose file name is `new_name` followed by `p`'s
/// old extension (empty when `p` had none; the joining dot is always kept).
pub open spec fn renamed_path_spec(p: Seq<char>, new_name: Seq<char>) -> Seq<char> {
    dir_prefix_of(p) + new_name + "."@ + (if has_extension(p) {
        extension_of(p)
    } else {
        Seq::<char>::empty()
    })
}

/// Number of characters of `path` once trailing slashes are dropped.
fn trimmed_char_len(path: &str) -> (m: usize)
    ensures
        m <= path@.len(),
        trim_trailing_slashes(path@) == path@.subrange(0, m as int),
{
    let n = path.unicode_len();
    let mut m: usize = n;
    proof {
        assert(path@.subrange(0, n as int) =~= path@);
    }
    while m > 0 && path.get_char(m - 1) == '/'
        invariant
            m <= n,
            n == path@.len(),
            trim_trailing_slashes(path@) == trim_trailing_slashes(path@.subrange(0, m as int)),
        decreases m,
    {
        proof {
            let q = path@.subrange(0, m as int);
            assert(q[q.len() - 1] == '/');
            assert(q.drop_last() =~= path@.subrange(0, m as int - 1));
        }
        m = m - 1;
    }
    proof {
        let q = path@.subrange(0, m as int);
        if m > 0 {
            assert(q[q.len() - 1] == path@[m as int - 1]);
        }
    }
    m
}

/// Index of the last occurrence of `c` in `s`, if any.
fn find_last(s: &str, c: char) -> (r: Option<usize>)
    ensures
        match r {
            Some(i) => i < s@.len() && last_occurrence(s@, c) == i as int,
            None => last_occurrence(s@, c) == -1,
        },
{
    let n = s.unicode_len();
    let mut best: Option<usize> = None;
    let mut i: usize = 0;
    proof {
        assert(s@.subrange(0, 0) =~= Seq::<char>::empty());
    }
    while i < n
        invariant
            i <= n,
            n == s@.len(),
            match best {
                Some(b) => b < i && last_occurrence(s@.subrange(0, i as int), c) == b as int,
                None => last_occurrence(s@.subrange(0, i as int), c) == -1,
            },
        decreases n - i,
    {
        let ch = s.get_char(i);
        proof {
            assert(s@.subrange(0, i as int + 1) =~= s@.subrange(0, i as int).push(s@[i as int]));
            lemma_last_occurrence_push(s@.subrange(0, i as int), c, s@[i as int]);
        }
        if ch == c {
            best = Some(i);
        }
        i = i + 1;
    }
    proof {
        assert(s@.subrange(0, n as int) =~= s@);
    }
    best
}

/// The file-name portion of `path`, as a slice.
fn file_name_part<'a>(path: &'a str) -> (r: &'a str)
    ensures
        r@ == raw_file_name(path@),
{
    let m = trimmed_char_len(path);
    let trimmed: &'a str = path.substring_char(0, m);
    let start: usize = match find_last(trimmed, '/') {
        Some(i) => i + 1,
        None => 0,
    };
    trimmed.substring_char(start, m)
}

/// Whether `f` names a file (it is not empty, `.` or `..`).
fn is_regular(f: &str) -> (r: bool)
    ensures
        r == is_regular_name(f@),
{
    let flen = f.unicode_len();
    if flen == 0 {
        false
    } else if flen == 1 && f.get_char(0) == '.' {
        false
    } else if flen == 2 && f.get_char(0) == '.' && f.get_char(1) == '.' {
        false
    } else {
        true
    }
}

/// The file name of `path`, or `"file"` when `path` has none.
pub fn file_name(path: &str) -> (r: String)
    ensures
        r@ == file_name_or_default(path@),
{
    let f = file_name_part(path);
    if is_regular(f) {
        f.to_owned()
    } else {
        "file".to_owned()
    }
}

/// The extension of `path`, or an error when its file name carries none.
pub fn extension(path: &str) -> (r: Result<String, String>)
    ensures
        has_extension(path@) ==> (r matches Ok(e) && e@ == extension_of(path@)),
        !has_extension(path@) ==> (r matches Err(m) && m@ == "the path has no file extension"@),
{
    let f = file_name_part(path);
    if !is_regular(f) {
        return Err("the path has no file extension".to_owned());
    }
    let flen = f.unicode_len();
    match find_last(f, '.') {
        Some(d) => {
            if d > 0 {
                Ok(f.substring_char(d + 1, flen).to_owned())
            } else {
                Err("the path has no file extension".to_owned())
            }
        },
        None => Err("the path has no file extension".to_owned()),
    }
}

/// Whether `file_path` names an Android app bundle, judged by its extension
/// alone; whether such a file exists is the caller's concern.
pub fn is_aab_file(file_path: &str) -> (r: bool)
    ensures
        r == (has_extension(file_path@) && extension_of(file_path@) == "aab"@),
{
    match extension(file_path) {
        Ok(e) => {
            let aab: String = String::from_str("aab");
            e == aab
        },
        Err(_) => false,
    }
}

/// The path `old_path` would get when its file name is replaced by `new_name`
/// plus the old extension; an error when `old_path` has no parent directory.
pub fn renamed_path(old_path: &str, new_name: &str) -> (r: Result<String, String>)
    ensures
        has_parent(old_path@) ==> (r matches Ok(s) && s@ == renamed_path_spec(old_path@, new_name@)),
        !has_parent(old_path@) ==> (r matches Err(m) && m@
            == "The file's parent directory could not be found"@),
{
    let m = trimmed_char_len(old_path);
    if m == 0 {
        return Err("The file's parent directory could not be found".to_owned());
    }
    let trimmed: &str = old_path.substring_char(0, m);
    let start: usize = match find_last(trimmed, '/') {
        Some(i) => i + 1,
        None => 0,
    };
    let dir: &str = trimmed.substring_char(0, start);
    let mut out = dir.to_owned();
    out.append(new_name);
    out.append(".");
    match extension(old_path) {
        Ok(e) => {
            out.append(e.as_str());
        },
        Err(_) => {
            proof {
                assert(out@ =~= renamed_path_spec(old_path@, new_name@));
            }
        },
    }
    Ok(out)
}

} // verus!

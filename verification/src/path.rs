//! Site paths: relative paths whose segments are parted by `/`.

use vstd::prelude::*;
use crate::text::{chars_of, text_of_range, view_of};

verus! {

/// The position of the last `c` in `s`, or -1 where `s` holds none.
pub open spec fn last_index_of(s: Seq<char>, c: char) -> int
    decreases s.len(),
{
    if s.len() == 0 {
        -1
    } else if s.last() == c {
        s.len() - 1
    } else {
        last_index_of(s.drop_last(), c)
    }
}

/// Where the last segment of a path starts: behind its last `/`.
pub open spec fn name_start(path: Seq<char>) -> int {
    last_index_of(path, '/') + 1
}

/// The last segment of a path.
pub open spec fn file_name(path: Seq<char>) -> Seq<char> {
    path.skip(name_start(path))
}

/// The length of a file name's stem: the name up to its last `.`, or the
/// whole name where it has no `.` behind its first character, and for `..`.
pub open spec fn stem_len(name: Seq<char>) -> int {
    let dot = last_index_of(name, '.');
    if dot <= 0 || name == seq!['.', '.'] {
        name.len() as int
    } else {
        dot
    }
}

/// The stem of a path's last segment.
pub open spec fn file_stem(path: Seq<char>) -> Seq<char> {
    file_name(path).take(stem_len(file_name(path)))
}

/// The extension of a path's last segment: what follows the stem's `.`.
pub open spec fn extension(path: Seq<char>) -> Option<Seq<char>> {
    let name = file_name(path);
    if stem_len(name) == name.len() {
        None
    } else {
        Some(name.skip(stem_len(name) + 1))
    }
}

/// A path without the extension of its last segment.
pub open spec fn without_extension(path: Seq<char>) -> Seq<char> {
    path.take(name_start(path) + stem_len(file_name(path)))
}

/// The last position is inside the text, or -1.
pub proof fn lemma_last_index_bounds(s: Seq<char>, c: char)
    ensures
        -1 <= last_index_of(s, c) < s.len(),
        last_index_of(s, c) >= 0 ==> s[last_index_of(s, c)] == c,
    decreases s.len(),
{
    if s.len() > 0 && s.last() != c {
        lemma_last_index_bounds(s.drop_last(), c);
    }
}

/// A path is its part without extension, then, where it has an extension,
/// a `.` and that extension.
pub proof fn lemma_path_parts(path: Seq<char>)
    ensures
        0 <= name_start(path) <= path.len(),
        0 <= stem_len(file_name(path)) <= file_name(path).len(),
        match extension(path) {
            Some(e) => path == without_extension(path) + seq!['.'] + e,
            None => path == without_extension(path),
        },
{
    lemma_last_index_bounds(path, '/');
    let name = file_name(path);
    lemma_last_index_bounds(name, '.');
    match extension(path) {
        Some(e) => {
            assert(path =~= without_extension(path) + seq!['.'] + e);
        },
        None => {
            assert(path =~= without_extension(path));
        },
    }
}

/// Finds the last `c` among the first `end` characters of `v`.
fn find_last(v: &Vec<char>, from: usize, end: usize, c: char) -> (found: Option<usize>)
    requires
        from <= end <= v.len(),
    ensures
        match found {
            Some(i) => from <= i < end && last_index_of(v@.subrange(from as int, end as int), c)
                == i - from,
            None => last_index_of(v@.subrange(from as int, end as int), c) == -1,
        },
{
    let ghost whole = v@.subrange(from as int, end as int);
    let mut i: usize = end;
    while i > from
        invariant
            from <= i <= end <= v.len(),
            whole == v@.subrange(from as int, end as int),
            last_index_of(whole, c) == last_index_of(v@.subrange(from as int, i as int), c),
        decreases i,
    {
        let ghost part = v@.subrange(from as int, i as int);
        assert(part.last() == v@[i - 1]);
        if v[i - 1] == c {
            return Some(i - 1);
        }
        assert(part.drop_last() == v@.subrange(from as int, i - 1));
        i -= 1;
    }
    None
}

/// Where the stem of the last segment starts and ends in the path's
/// characters, and where the path ends.
fn split_points(v: &Vec<char>) -> (at: (usize, usize))
    ensures
        at.0 == name_start(v@),
        at.1 == name_start(v@) + stem_len(file_name(v@)),
        at.0 <= at.1 <= v.len(),
{
    let n = v.len();
    assert(v@.subrange(0, n as int) == v@);
    let start: usize = match find_last(v, 0, n, '/') {
        Some(i) => i + 1,
        None => 0,
    };
    let ghost name = file_name(v@);
    assert(name == v@.subrange(start as int, n as int));
    let dotdot = n - start == 2 && v[start] == '.' && v[start + 1] == '.';
    assert(dotdot == (name == seq!['.', '.'])) by {
        if dotdot {
            assert(name =~= seq!['.', '.']);
        }
    }
    let end: usize = match find_last(v, start, n, '.') {
        Some(i) => if i == start || dotdot {
            n
        } else {
            i
        },
        None => n,
    };
    (start, end)
}

/// The path without the extension of its last segment.
pub fn strip_extension(path: &str) -> (stripped: String)
    ensures
        stripped@ == without_extension(path@),
{
    let v = chars_of(path);
    let at = split_points(&v);
    text_of_range(&v, 0, at.1)
}

/// The stem of the path's last segment.
pub fn stem_of(path: &str) -> (stem: String)
    ensures
        stem@ == file_stem(path@),
{
    let v = chars_of(path);
    let at = split_points(&v);
    let stem = text_of_range(&v, at.0, at.1);
    assert(stem@ =~= file_stem(path@));
    stem
}

/// The extension of the path's last segment.
pub fn extension_of(path: &str) -> (ext: Option<String>)
    ensures
        view_of(ext) == extension(path@),
{
    let v = chars_of(path);
    let at = split_points(&v);
    if at.1 == v.len() {
        None
    } else {
        let ext = text_of_range(&v, at.1 + 1, v.len());
        assert(ext@ =~= file_name(path@).skip(stem_len(file_name(path@)) + 1));
        Some(ext)
    }
}

} // verus!

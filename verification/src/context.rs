//! The local working copy: the repository name that its top-level directory suggests.

use vstd::prelude::*;
use vstd::string::*;
use crate::error::{CliError, CliErrorView};

verus! {

/// The character that separates the segments of a path.
pub open spec fn is_separator(c: char) -> bool {
    c == '/'
}

/// Where the segment that ends before `end` begins: the least index from
/// which no separator stands before `end`.
pub open spec fn segment_start(path: Seq<char>, end: int) -> int
    decreases end,
{
    if end <= 0 {
        0
    } else if is_separator(path[end - 1]) {
        end
    } else {
        segment_start(path, end - 1)
    }
}

/// The bounds of the final segment of `path` before `end`. Empty segments
/// (a doubled or trailing separator) and segments that are a single dot name
/// no directory and are passed over. `(0, 0)` where nothing is left.
pub open spec fn final_segment_bounds(path: Seq<char>, end: int) -> (int, int)
    decreases end,
{
    if end <= 0 {
        (0, 0)
    } else {
        let start = segment_start(path, end);
        if start >= end || (start == end - 1 && path[start] == '.') {
            final_segment_bounds(path, end - 1)
        } else {
            (start, end)
        }
    }
}

/// The final segment of `path`; empty where it has none.
pub open spec fn final_segment(path: Seq<char>) -> Seq<char> {
    let (start, end) = final_segment_bounds(path, path.len() as int);
    path.subrange(start, end)
}

/// Whether a segment is a normal name: not empty, and not the two dots that
/// stand for the parent directory.
pub open spec fn is_normal_name(segment: Seq<char>) -> bool {
    segment.len() > 0 && segment != seq!['.', '.']
}

/// The repository name that a top-level directory suggests: its final
/// segment, where that is a normal name.
pub open spec fn suggested_name(path: Seq<char>) -> Option<Seq<char>> {
    if is_normal_name(final_segment(path)) {
        Some(final_segment(path))
    } else {
        None
    }
}

/// Whether the character at `i` is a dot that is a segment of its own.
pub open spec fn is_lone_dot(path: Seq<char>, i: int) -> bool {
    &&& path[i] == '.'
    &&& (i == 0 || is_separator(path[i - 1]))
    &&& (i + 1 == path.len() || is_separator(path[i + 1]))
}

/// Whether the character at `i` belongs to nothing that names a directory:
/// it is a separator, or a dot that is a segment of its own.
pub open spec fn is_passed_over(path: Seq<char>, i: int) -> bool {
    is_separator(path[i]) || is_lone_dot(path, i)
}

/// Whether `start` and `end` bound the final segment of `path`: a whole
/// segment that is neither empty nor a single dot, with nothing behind it
/// but separators and single dots.
pub open spec fn is_final_segment(path: Seq<char>, start: int, end: int) -> bool {
    &&& 0 <= start < end <= path.len()
    &&& forall|i: int| start <= i < end ==> !is_separator(#[trigger] path[i])
    &&& (start == 0 || is_separator(path[start - 1]))
    &&& (end == path.len() || is_separator(path[end]))
    &&& !(end == start + 1 && path[start] == '.')
    &&& forall|i: int| end <= i < path.len() ==> #[trigger] is_passed_over(path, i)
}

/// The characters of a text, one by one.
fn chars_of(text: &str) -> (chars: Vec<char>)
    ensures
        chars@ == text@,
{
    let mut chars: Vec<char> = Vec::new();
    for c in it: text.chars()
        invariant
            it.seq() == text@,
            chars@ == it.seq().take(it.index() as int),
    {
        chars.push(c);
    }
    assert(chars@ =~= text@);
    chars
}

proof fn lemma_segment_start(path: Seq<char>, end: int)
    requires
        0 <= end <= path.len(),
    ensures
        0 <= segment_start(path, end) <= end,
        forall|i: int| segment_start(path, end) <= i < end ==> !is_separator(#[trigger] path[i]),
        segment_start(path, end) > 0 ==> is_separator(path[segment_start(path, end) - 1]),
    decreases end,
{
    if end > 0 && !is_separator(path[end - 1]) {
        lemma_segment_start(path, end - 1);
    }
}

/// Where the segment that ends before `end` begins.
fn find_segment_start(chars: &Vec<char>, end: usize) -> (start: usize)
    requires
        end <= chars.len(),
    ensures
        start == segment_start(chars@, end as int),
        start <= end,
{
    let mut start = end;
    while start > 0 && chars[start - 1] != '/'
        invariant
            start <= end <= chars.len(),
            segment_start(chars@, end as int) == segment_start(chars@, start as int),
        decreases start,
    {
        start = start - 1;
    }
    start
}

/// The bounds of the final segment of the path.
fn find_final_segment(chars: &Vec<char>) -> (bounds: (usize, usize))
    ensures
        (bounds.0 as int, bounds.1 as int) == final_segment_bounds(chars@, chars.len() as int),
        bounds.0 <= bounds.1 <= chars.len(),
{
    let mut end = chars.len();
    while end > 0
        invariant
            end <= chars.len(),
            final_segment_bounds(chars@, chars.len() as int) == final_segment_bounds(
                chars@,
                end as int,
            ),
        decreases end,
    {
        let start = find_segment_start(chars, end);
        if start == end || (start == end - 1 && chars[start] == '.') {
            end = end - 1;
        } else {
            return (start, end);
        }
    }
    (0, 0)
}

/// The name suggested for the remote repository: the final segment of the
/// top-level directory of the working copy.
///
/// Fails with `InvalidPath` where the path has no final segment that is a
/// normal name: the empty path, the root, a path that ends in `..`.
pub fn suggested_remote_repo_name(local_path: &str) -> (name: Result<String, CliError>)
    ensures
        match name {
            Ok(text) => suggested_name(local_path@) == Some(text@),
            Err(error) => suggested_name(local_path@) is None && error@
                == CliErrorView::InvalidPath(local_path@),
        },
{
    let chars = chars_of(local_path);
    let (start, end) = find_final_segment(&chars);
    let parent = end - start == 2 && chars[start] == '.' && chars[start + 1] == '.';
    proof {
        let segment = local_path@.subrange(start as int, end as int);
        if parent {
            assert(segment =~= seq!['.', '.']);
        } else if segment == seq!['.', '.'] {
            assert(segment.len() == 2);
            assert(segment[0] == '.' && segment[1] == '.');
        }
    }
    if start == end || parent {
        Err(CliError::InvalidPath(String::from_str(local_path)))
    } else {
        Ok(String::from_str(local_path.substring_char(start, end)))
    }
}

/// The final segment is what its name says. Where the path has a segment
/// that is neither empty nor a single dot, the last such segment is found,
/// whole, and nothing but separators and single dots stands behind it; no
/// other part of the path is such a segment. Where the path has none,
/// nothing is found.
pub proof fn final_segment_is_the_last_one(path: Seq<char>)
    ensures
        ({
            let (from, to) = final_segment_bounds(path, path.len() as int);
            if from < to {
                is_final_segment(path, from, to)
            } else {
                &&& from == 0 && to == 0
                &&& forall|i: int| 0 <= i < path.len() ==> #[trigger] is_passed_over(path, i)
            }
        }),
        forall|start: int, end: int| #[trigger]
            is_final_segment(path, start, end) ==> (start, end) == final_segment_bounds(
                path,
                path.len() as int,
            ),
{
    lemma_bounds_are_final(path, path.len() as int);
    let (from, to) = final_segment_bounds(path, path.len() as int);
    assert forall|start: int, end: int| #[trigger]
        is_final_segment(path, start, end) implies (start, end) == (from, to) by {
        if from < to {
            lemma_final_segment_unique(path, start, end, from, to);
        } else {
            assert(is_passed_over(path, start));
            if start + 1 < end {
                assert(!is_separator(path[start + 1]));
            }
        }
    }
}

/// A suggested name is a normal name without a separator, and it is not a
/// single dot.
pub proof fn suggested_name_is_plain(path: Seq<char>)
    requires
        suggested_name(path) is Some,
    ensures
        is_normal_name(suggested_name(path)->0),
        suggested_name(path)->0 != seq!['.'],
        forall|i: int|
            0 <= i < suggested_name(path)->0.len() ==> !is_separator(
                #[trigger] suggested_name(path)->0[i],
            ),
{
    final_segment_is_the_last_one(path);
    let (from, to) = final_segment_bounds(path, path.len() as int);
    let name = path.subrange(from, to);
    if name == seq!['.'] {
        assert(name.len() == 1);
        assert(name[0] == '.');
    }
    assert forall|i: int| 0 <= i < name.len() implies !is_separator(#[trigger] name[i]) by {
        assert(name[i] == path[from + i]);
    }
}

/// Suggesting is idempotent: the name suggested for a path is the name
/// suggested for that name, taken as a path.
pub proof fn suggested_name_idempotent(path: Seq<char>)
    requires
        suggested_name(path) is Some,
    ensures
        suggested_name(suggested_name(path)->0) == suggested_name(path),
{
    let name = suggested_name(path)->0;
    suggested_name_is_plain(path);
    lemma_plain_name_is_own_segment(name);
}

/// Suggesting is deterministic: paths that hold the same characters suggest
/// the same name, which is the final segment of the path.
pub proof fn suggested_name_deterministic(first: Seq<char>, second: Seq<char>)
    requires
        first =~= second,
    ensures
        suggested_name(first) == suggested_name(second),
        suggested_name(first) is Some ==> suggested_name(first)->0 == final_segment(second),
{
}

proof fn lemma_bounds_are_final(path: Seq<char>, end: int)
    requires
        0 <= end <= path.len(),
        forall|i: int| end <= i < path.len() ==> #[trigger] is_passed_over(path, i),
        end == 0 || end == path.len() || is_separator(path[end]) || (path[end] == '.'
            && is_separator(path[end - 1])),
    ensures
        ({
            let (from, to) = final_segment_bounds(path, end);
            if from < to {
                is_final_segment(path, from, to)
            } else {
                &&& from == 0 && to == 0
                &&& forall|i: int| 0 <= i < path.len() ==> #[trigger] is_passed_over(path, i)
            }
        }),
    decreases end,
{
    if end > 0 {
        let start = segment_start(path, end);
        lemma_segment_start(path, end);
        if start >= end {
            assert(is_passed_over(path, end - 1));
            lemma_bounds_are_final(path, end - 1);
        } else if start == end - 1 && path[start] == '.' {
            assert(is_lone_dot(path, end - 1));
            assert(is_passed_over(path, end - 1));
            lemma_bounds_are_final(path, end - 1);
        } else {
            assert(is_final_segment(path, start, end));
        }
    }
}

proof fn lemma_final_segment_unique(
    path: Seq<char>,
    start: int,
    end: int,
    other_start: int,
    other_end: int,
)
    requires
        is_final_segment(path, start, end),
        is_final_segment(path, other_start, other_end),
    ensures
        start == other_start,
        end == other_end,
{
    if end < other_end {
        assert(is_separator(path[end]));
        assert(is_passed_over(path, other_start));
        if other_start + 1 < other_end {
            assert(!is_separator(path[other_start + 1]));
        }
    } else if other_end < end {
        assert(is_separator(path[other_end]));
        assert(is_passed_over(path, start));
        if start + 1 < end {
            assert(!is_separator(path[start + 1]));
        }
    } else if start < other_start {
        assert(!is_separator(path[other_start - 1]));
    } else if other_start < start {
        assert(!is_separator(path[start - 1]));
    }
}

proof fn lemma_no_separator_start(name: Seq<char>, end: int)
    requires
        0 <= end <= name.len(),
        forall|i: int| 0 <= i < name.len() ==> !is_separator(#[trigger] name[i]),
    ensures
        segment_start(name, end) == 0,
    decreases end,
{
    if end > 0 {
        lemma_no_separator_start(name, end - 1);
    }
}

proof fn lemma_plain_name_is_own_segment(name: Seq<char>)
    requires
        name.len() > 0,
        name != seq!['.'],
        forall|i: int| 0 <= i < name.len() ==> !is_separator(#[trigger] name[i]),
    ensures
        final_segment(name) == name,
{
    let end = name.len() as int;
    lemma_no_separator_start(name, end);
    if end == 1 && name[0] == '.' {
        assert(name =~= seq!['.']);
    }
    assert(name.subrange(0, end) =~= name);
}

} // verus!

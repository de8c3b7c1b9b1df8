//! Paths as text, read by the POSIX rules: `/` separates the segments, empty
//! segments and lone `.` segments count for nothing, and a leading `/` is the
//! root.
//!
//! The functions here work on `&str` and say what they return over the
//! characters of the path, so that the naming rules built on them can be
//! stated exactly.

use vstd::prelude::*;
use vstd::std_specs::iter::IteratorSpec;
use vstd::string::StrSliceExecFns;
use vstd::string::StringExecFns;

verus! {

/// The separator between the segments of a path.
pub const SEPARATOR: char = '/';

/// `s` without what counts for nothing at its end: separators, and `.`
/// segments that follow a separator. A root that is all there is stays.
pub open spec fn trimmed(s: Seq<char>) -> Seq<char>
    decreases s.len(),
{
    if s.len() >= 2 && (s.last() == SEPARATOR || (s.last() == '.' && s[s.len() - 2]
        == SEPARATOR)) {
        trimmed(s.drop_last())
    } else {
        s
    }
}

/// Where the last segment of `s` starts: behind its last separator, or at 0
/// where it has none.
pub open spec fn segment_start(s: Seq<char>) -> int
    decreases s.len(),
{
    if s.len() == 0 || s.last() == SEPARATOR {
        s.len() as int
    } else {
        segment_start(s.drop_last())
    }
}

/// The last segment of `s`: what stands behind its last separator.
pub open spec fn last_segment(s: Seq<char>) -> Seq<char> {
    s.subrange(segment_start(s), s.len() as int)
}

/// Whether a segment names something: it is not empty and is neither `.`
/// nor `..`.
pub open spec fn is_name(segment: Seq<char>) -> bool {
    segment.len() > 0 && segment != seq!['.'] && segment != seq!['.', '.']
}

/// The final component of the path, where it is a name.
pub open spec fn file_name_of(path: Seq<char>) -> Option<Seq<char>> {
    let segment = last_segment(trimmed(path));
    if is_name(segment) {
        Some(segment)
    } else {
        None
    }
}

/// The path without its final component. There is none where the path is
/// empty or nothing but a root.
pub open spec fn parent_of(path: Seq<char>) -> Option<Seq<char>> {
    let rest = trimmed(path);
    if last_segment(rest).len() == 0 {
        None
    } else {
        Some(trimmed(rest.subrange(0, segment_start(rest))))
    }
}

/// The index of the last `.` in `name`, or -1 where it has none.
pub open spec fn last_dot(name: Seq<char>) -> int
    decreases name.len(),
{
    if name.len() == 0 {
        -1
    } else if name.last() == '.' {
        name.len() - 1
    } else {
        last_dot(name.drop_last())
    }
}

/// What follows the last `.` of the file name. There is none where the path
/// has no file name, where the name holds no `.`, and where its only `.` is
/// its first character.
pub open spec fn extension_of(path: Seq<char>) -> Option<Seq<char>> {
    match file_name_of(path) {
        None => None,
        Some(name) => {
            let dot = last_dot(name);
            if dot <= 0 {
                None
            } else {
                Some(name.subrange(dot + 1, name.len() as int))
            }
        },
    }
}

/// `name` seen from `base`: `name` itself where it starts at the root or
/// `base` is empty, else `base`, a separator unless `base` ends in one, and
/// `name`.
pub open spec fn joined(base: Seq<char>, name: Seq<char>) -> Seq<char> {
    if name.len() > 0 && name[0] == SEPARATOR {
        name
    } else if base.len() == 0 {
        name
    } else if base.last() == SEPARATOR {
        base + name
    } else {
        base + seq![SEPARATOR] + name
    }
}

/// Whether `s` holds no separator.
pub open spec fn is_plain(s: Seq<char>) -> bool {
    forall|i: int| 0 <= i < s.len() ==> s[i] != SEPARATOR
}

/// A path with a file name has a parent, so that only the file name
/// decides whether a file can be placed beside itself.
pub proof fn lemma_file_name_has_parent(path: Seq<char>)
    ensures
        file_name_of(path) is Some ==> parent_of(path) is Some,
{
}

/// What `trimmed` leaves is the front of what it was given, and is left
/// as it is when trimmed again.
pub proof fn lemma_trimmed_is_a_front(s: Seq<char>)
    ensures
        trimmed(s).len() <= s.len(),
        trimmed(s) == s.subrange(0, trimmed(s).len() as int),
        trimmed(trimmed(s)) == trimmed(s),
    decreases s.len(),
{
    if s.len() >= 2 && (s.last() == SEPARATOR || (s.last() == '.' && s[s.len() - 2]
        == SEPARATOR)) {
        lemma_trimmed_is_a_front(s.drop_last());
    }
}

/// The last segment holds no separator, and a separator stands before it
/// unless it starts the path.
pub proof fn lemma_last_segment_is_plain(s: Seq<char>)
    ensures
        0 <= segment_start(s) <= s.len(),
        is_plain(last_segment(s)),
        segment_start(s) > 0 ==> s[segment_start(s) - 1] == SEPARATOR,
    decreases s.len(),
{
    if s.len() > 0 && s.last() != SEPARATOR {
        lemma_last_segment_is_plain(s.drop_last());
        assert(last_segment(s) =~= last_segment(s.drop_last()).push(s.last()));
    }
}

/// The file name of a path is one of its segments: it is not empty, holds
/// no separator, and is neither `.` nor `..`.
pub proof fn lemma_file_name_is_a_segment(path: Seq<char>)
    requires
        file_name_of(path) is Some,
    ensures
        is_name(file_name_of(path)->0),
        is_plain(file_name_of(path)->0),
{
    lemma_last_segment_is_plain(trimmed(path));
}

/// Behind a base that is empty or ends in a separator, a name without
/// separators is the last segment.
pub proof fn lemma_segment_starts_behind_base(base: Seq<char>, name: Seq<char>)
    requires
        is_plain(name),
        base.len() == 0 || base.last() == SEPARATOR,
    ensures
        segment_start(base + name) == base.len(),
    decreases name.len(),
{
    if name.len() > 0 {
        assert((base + name).drop_last() =~= base + name.drop_last());
        lemma_segment_starts_behind_base(base, name.drop_last());
    }
}

/// Where `last_dot` finds a `.`, there is one, and none behind it.
pub proof fn lemma_last_dot_is_the_last(name: Seq<char>)
    ensures
        -1 <= last_dot(name) < name.len(),
        last_dot(name) >= 0 ==> name[last_dot(name)] == '.',
        forall|i: int| last_dot(name) < i < name.len() ==> name[i] != '.',
    decreases name.len(),
{
    if name.len() > 0 && name.last() != '.' {
        let front = name.drop_last();
        lemma_last_dot_is_the_last(front);
        assert forall|i: int| last_dot(name) < i < name.len() implies name[i] != '.' by {
            if i < front.len() {
                assert(name[i] == front[i]);
            }
        }
    }
}

/// Text in front of a name that holds a `.` moves the last `.` along.
pub proof fn lemma_last_dot_moves_along(front: Seq<char>, name: Seq<char>)
    requires
        last_dot(name) >= 0,
    ensures
        last_dot(front + name) == front.len() + last_dot(name),
    decreases name.len(),
{
    if name.last() != '.' {
        assert((front + name).drop_last() =~= front + name.drop_last());
        lemma_last_dot_moves_along(front, name.drop_last());
    }
}

/// Taking a path apart undoes putting it together: of a trimmed directory
/// joined with a name, the file name is that name and the parent is that
/// directory.
pub proof fn lemma_joined_comes_apart(dir: Seq<char>, name: Seq<char>)
    requires
        trimmed(dir) == dir,
        is_name(name),
        is_plain(name),
    ensures
        file_name_of(joined(dir, name)) == Some(name),
        parent_of(joined(dir, name)) == Some(dir),
{
    let whole = joined(dir, name);
    let base = if dir.len() == 0 || dir.last() == SEPARATOR {
        dir
    } else {
        dir + seq![SEPARATOR]
    };
    if name.len() == 1 && name.last() == '.' {
        assert(name =~= seq!['.']);
    }
    lemma_segment_starts_behind_base(base, name);
    assert(whole.subrange(base.len() as int, whole.len() as int) =~= name);
    assert(whole.subrange(0, base.len() as int) =~= base);
    if dir.len() > 0 && dir.last() != SEPARATOR {
        assert(base.drop_last() =~= dir);
    }
}

/// The characters of an optional piece of text.
pub open spec fn text_of(piece: Option<&str>) -> Option<Seq<char>> {
    match piece {
        None => None,
        Some(s) => Some(s@),
    }
}

fn to_chars(s: &str) -> (v: Vec<char>)
    ensures
        v@ == s@,
{
    let mut v: Vec<char> = Vec::new();
    let chars = s.chars();
    for c in it: chars
        invariant
            it.seq() == s@,
            v@ == s@.subrange(0, it.index() as int),
    {
        v.push(c);
    }
    v
}

/// The length of what `trimmed` leaves of the first `end` characters.
fn trimmed_len(chars: &Vec<char>, end: usize) -> (n: usize)
    requires
        end <= chars.len(),
    ensures
        n <= end,
        chars@.subrange(0, n as int) == trimmed(chars@.subrange(0, end as int)),
{
    let mut n: usize = end;
    while n >= 2 && (chars[n - 1] == SEPARATOR || (chars[n - 1] == '.' && chars[n - 2]
        == SEPARATOR))
        invariant
            n <= end <= chars.len(),
            trimmed(chars@.subrange(0, n as int)) == trimmed(chars@.subrange(0, end as int)),
        decreases n,
    {
        assert(chars@.subrange(0, n as int).drop_last() == chars@.subrange(0, n - 1));
        n = n - 1;
    }
    n
}

/// Where the last segment of the first `end` characters starts.
fn segment_start_in(chars: &Vec<char>, end: usize) -> (k: usize)
    requires
        end <= chars.len(),
    ensures
        k <= end,
        k == segment_start(chars@.subrange(0, end as int)),
{
    let mut k: usize = end;
    while k > 0 && chars[k - 1] != SEPARATOR
        invariant
            k <= end <= chars.len(),
            segment_start(chars@.subrange(0, k as int)) == segment_start(
                chars@.subrange(0, end as int),
            ),
        decreases k,
    {
        assert(chars@.subrange(0, k as int).drop_last() == chars@.subrange(0, k - 1));
        k = k - 1;
    }
    k
}

/// Where the last segment of the trimmed path starts and ends.
fn last_segment_in(chars: &Vec<char>) -> (r: (usize, usize))
    ensures
        r.0 <= r.1 <= chars.len(),
        chars@.subrange(0, r.1 as int) == trimmed(chars@),
        r.0 == segment_start(trimmed(chars@)),
        chars@.subrange(r.0 as int, r.1 as int) == last_segment(trimmed(chars@)),
{
    assert(chars@.subrange(0, chars.len() as int) == chars@);
    let end = trimmed_len(chars, chars.len());
    let start = segment_start_in(chars, end);
    (start, end)
}

/// Whether the characters from `start` to `end` are a name.
fn is_name_in(chars: &Vec<char>, start: usize, end: usize) -> (b: bool)
    requires
        start <= end <= chars.len(),
    ensures
        b == is_name(chars@.subrange(start as int, end as int)),
{
    let ghost segment = chars@.subrange(start as int, end as int);
    assert(seq!['.'].len() == 1 && seq!['.', '.'].len() == 2);
    if end == start {
        false
    } else if end - start == 1 {
        assert(segment =~= seq!['.'] <==> segment[0] == '.');
        chars[start] != '.'
    } else if end - start == 2 {
        assert(segment =~= seq!['.', '.'] <==> (segment[0] == '.' && segment[1] == '.'));
        !(chars[start] == '.' && chars[start + 1] == '.')
    } else {
        true
    }
}

/// The final component of `path`, where it is a name: `None` for the empty
/// path, for a root, and for a path that ends in `.` or `..`.
pub fn file_name<'a>(path: &'a str) -> (name: Option<&'a str>)
    ensures
        text_of(name) == file_name_of(path@),
{
    let chars = to_chars(path);
    let (start, end) = last_segment_in(&chars);
    if is_name_in(&chars, start, end) {
        Some(path.substring_char(start, end))
    } else {
        None
    }
}

/// `path` without its final component: `None` for the empty path and for a
/// root.
pub fn parent<'a>(path: &'a str) -> (dir: Option<&'a str>)
    ensures
        text_of(dir) == parent_of(path@),
{
    let chars = to_chars(path);
    let (start, end) = last_segment_in(&chars);
    if start == end {
        None
    } else {
        let stop = trimmed_len(&chars, start);
        assert(chars@.subrange(0, end as int).subrange(0, start as int) == chars@.subrange(
            0,
            start as int,
        ));
        Some(path.substring_char(0, stop))
    }
}

/// Where the last `.` among the characters from `start` to `end` stands,
/// counted from `start`, and one more: 0 where there is none.
fn after_last_dot_in(chars: &Vec<char>, start: usize, end: usize) -> (k: usize)
    requires
        start <= end <= chars.len(),
    ensures
        k <= end - start,
        k == last_dot(chars@.subrange(start as int, end as int)) + 1,
{
    let ghost name = chars@.subrange(start as int, end as int);
    let mut k: usize = end - start;
    assert(name.subrange(0, k as int) == name);
    while k > 0 && chars[start + k - 1] != '.'
        invariant
            start <= end <= chars.len(),
            k <= end - start,
            name == chars@.subrange(start as int, end as int),
            last_dot(name.subrange(0, k as int)) == last_dot(name),
        decreases k,
    {
        assert(name.subrange(0, k as int).drop_last() == name.subrange(0, k - 1));
        k = k - 1;
    }
    k
}

/// What follows the last `.` of the file name of `path`: `None` where the
/// path has no file name, where the name holds no `.`, and where its only
/// `.` is its first character. A name that ends in `.` has the empty
/// extension.
pub fn extension<'a>(path: &'a str) -> (ext: Option<&'a str>)
    ensures
        text_of(ext) == extension_of(path@),
{
    let chars = to_chars(path);
    let (start, end) = last_segment_in(&chars);
    if !is_name_in(&chars, start, end) {
        return None;
    }
    let after = after_last_dot_in(&chars, start, end);
    if after <= 1 {
        None
    } else {
        Some(path.substring_char(start + after, end))
    }
}

/// `name` seen from `base`, as one path: `name` alone where it starts at
/// the root or `base` is empty; else `base`, a separator unless `base` ends
/// in one, and `name`.
pub fn join(base: &str, name: &str) -> (path: String)
    ensures
        path@ == joined(base@, name@),
{
    let base_len = base.unicode_len();
    let name_len = name.unicode_len();
    if (name_len > 0 && name.get_char(0) == SEPARATOR) || base_len == 0 {
        return String::from_str(name);
    }
    let mut path = String::from_str(base);
    if base.get_char(base_len - 1) != SEPARATOR {
        proof {
            reveal_strlit("/");
        }
        path.append("/");
    }
    path.append(name);
    path
}

} // verus!

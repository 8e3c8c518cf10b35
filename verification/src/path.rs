//! File names and extensions of `/`-separated paths, read from the text of
//! the path alone.

use vstd::prelude::*;
use crate::text::{chars_of, opt_view};

verus! {

/// Index of the last occurrence of `c` in `s`, or -1 when there is none.
pub open spec fn last_index_of(s: Seq<char>, c: char) -> int
    decreases s.len(),
{
    if s.len() == 0 {
        -1
    } else if s.last() == c {
        s.len() - 1
    } else {
        last_index_of(s.drop_last(), c)
    }
}

/// The final component of a path: its last segment between separators that is
/// neither empty nor `.`. There is none when no such segment exists or when
/// that segment is `..`.
pub open spec fn file_name(path: Seq<char>) -> Option<Seq<char>>
    decreases path.len(),
{
    let cut = last_index_of(path, '/');
    let segment = path.skip(cut + 1);
    if path.len() == 0 {
        None
    } else if segment.len() == 0 || segment == seq!['.'] {
        if 0 <= cut < path.len() {
            file_name(path.take(cut))
        } else {
            None
        }
    } else if segment == seq!['.', '.'] {
        None
    } else {
        Some(segment)
    }
}

/// The extension of a file name: what follows its last `.`, unless the name
/// has no `.` or only the one it begins with.
pub open spec fn extension_of_name(name: Seq<char>) -> Option<Seq<char>> {
    let dot = last_index_of(name, '.');
    if dot <= 0 {
        None
    } else {
        Some(name.skip(dot + 1))
    }
}

/// The extension of a path's final component.
pub open spec fn extension(path: Seq<char>) -> Option<Seq<char>> {
    match file_name(path) {
        Some(name) => extension_of_name(name),
        None => None,
    }
}

/// `last_index_of` is -1 or the index of an occurrence after which there is
/// no other.
pub proof fn lemma_last_index_of(s: Seq<char>, c: char)
    ensures
        -1 <= last_index_of(s, c) < s.len(),
        last_index_of(s, c) >= 0 ==> s[last_index_of(s, c)] == c,
        forall|k: int| last_index_of(s, c) < k < s.len() ==> s[k] != c,
    decreases s.len(),
{
    if s.len() > 0 && s.last() != c {
        let rest = s.drop_last();
        lemma_last_index_of(rest, c);
        assert forall|k: int| last_index_of(s, c) < k < s.len() implies s[k] != c by {
            if k < rest.len() {
                assert(rest[k] == s[k]);
            }
        }
    }
}

/// An occurrence after which there is no other is the last one.
pub proof fn lemma_last_index_is(s: Seq<char>, c: char, i: int)
    requires
        -1 <= i < s.len(),
        i >= 0 ==> s[i] == c,
        forall|k: int| i < k < s.len() ==> s[k] != c,
    ensures
        last_index_of(s, c) == i,
{
    lemma_last_index_of(s, c);
}

/// Finds the last `c` in `chars[lo..hi]`; the index returned counts from the
/// start of `chars`.
pub fn last_index_between(chars: &Vec<char>, lo: usize, hi: usize, c: char) -> (r: Option<usize>)
    requires
        lo <= hi <= chars.len(),
    ensures
        match r {
            Some(i) => lo <= i < hi && last_index_of(chars@.subrange(lo as int, hi as int), c)
                == i - lo,
            None => last_index_of(chars@.subrange(lo as int, hi as int), c) == -1,
        },
{
    let ghost s = chars@.subrange(lo as int, hi as int);
    let mut j: usize = hi;
    assert(s.take(hi - lo) =~= s);
    while j > lo
        invariant
            lo <= j <= hi <= chars.len(),
            s == chars@.subrange(lo as int, hi as int),
            last_index_of(s, c) == last_index_of(s.take(j - lo), c),
        decreases j,
    {
        let ghost prefix = s.take(j - lo);
        if chars[j - 1] == c {
            return Some(j - 1);
        }
        assert(prefix.drop_last() =~= s.take(j - 1 - lo));
        j -= 1;
    }
    None
}

/// The bounds within `chars` of the path's final component.
pub fn file_name_bounds(chars: &Vec<char>) -> (r: Option<(usize, usize)>)
    ensures
        match r {
            Some((lo, hi)) => lo < hi <= chars.len() && file_name(chars@) == Some(
                chars@.subrange(lo as int, hi as int),
            ),
            None => file_name(chars@) is None,
        },
{
    let mut end: usize = chars.len();
    assert(chars@.take(end as int) =~= chars@);
    loop
        invariant
            end <= chars.len(),
            file_name(chars@) == file_name(chars@.take(end as int)),
        decreases end,
    {
        let ghost path = chars@.take(end as int);
        if end == 0 {
            return None;
        }
        let cut = last_index_between(chars, 0, end, '/');
        let lo: usize = match cut {
            Some(i) => i + 1,
            None => 0,
        };
        let ghost segment = path.skip(lo as int);
        if lo == end || (end - lo == 1 && chars[lo] == '.') {
            assert(segment.len() == 0 || segment =~= seq!['.']);
            match cut {
                Some(i) => {
                    assert(path.take(i as int) =~= chars@.take(i as int));
                    end = i;
                },
                None => {
                    return None;
                },
            }
        } else if end - lo == 2 && chars[lo] == '.' && chars[lo + 1] == '.' {
            assert(segment =~= seq!['.', '.']);
            return None;
        } else {
            assert(segment != seq!['.']) by {
                if segment.len() == 1 {
                    assert(segment[0] != seq!['.'][0]);
                }
            }
            assert(segment != seq!['.', '.']) by {
                if segment.len() == 2 {
                    assert(segment[0] != seq!['.', '.'][0] || segment[1] != seq!['.', '.'][1]);
                }
            }
            return Some((lo, end));
        }
    }
}

/// The bounds within `chars` of the extension of the name `chars[lo..hi]`.
pub fn extension_bounds(chars: &Vec<char>, lo: usize, hi: usize) -> (r: Option<(usize, usize)>)
    requires
        lo <= hi <= chars.len(),
    ensures
        match r {
            Some((from, to)) => lo < from <= to && to == hi && extension_of_name(
                chars@.subrange(lo as int, hi as int),
            ) == Some(chars@.subrange(from as int, to as int)),
            None => extension_of_name(chars@.subrange(lo as int, hi as int)) is None,
        },
{
    match last_index_between(chars, lo, hi, '.') {
        Some(dot) => {
            if dot == lo {
                None
            } else {
                Some((dot + 1, hi))
            }
        },
        None => None,
    }
}

/// The bounds within `chars` of the extension of the path's final component.
pub fn path_extension_bounds(chars: &Vec<char>) -> (r: Option<(usize, usize)>)
    ensures
        match r {
            Some((from, to)) => from <= to <= chars.len() && extension(chars@) == Some(
                chars@.subrange(from as int, to as int),
            ),
            None => extension(chars@) is None,
        },
{
    match file_name_bounds(chars) {
        Some((lo, hi)) => extension_bounds(chars, lo, hi),
        None => None,
    }
}

/// The final component of `path`, if it has one.
pub fn path_file_name(path: &str) -> (r: Option<String>)
    ensures
        opt_view(r) == file_name(path@),
{
    let chars = chars_of(path);
    match file_name_bounds(&chars) {
        Some((lo, hi)) => Some(path.substring_char(lo, hi).to_owned()),
        None => None,
    }
}

/// The extension of the final component of `path`, if it has one.
pub fn path_extension(path: &str) -> (r: Option<String>)
    ensures
        opt_view(r) == extension(path@),
{
    let chars = chars_of(path);
    match path_extension_bounds(&chars) {
        Some((from, to)) => Some(path.substring_char(from, to).to_owned()),
        None => None,
    }
}

} // verus!

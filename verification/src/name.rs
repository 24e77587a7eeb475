//! File names: where the stem ends and the extension begins.
//!
//! A name here is the last component of a path, with no directory in front
//! of it. The stem and the extension are parted at the last dot, unless that
//! dot opens the name.

use vstd::prelude::*;
use vstd::std_specs::iter::IteratorSpec;

verus! {

/// Whether `i` is the place of the last dot of `name`.
pub open spec fn is_last_dot(name: Seq<char>, i: int) -> bool {
    &&& 0 <= i < name.len()
    &&& name[i] == '.'
    &&& forall|j: int| i < j < name.len() ==> name[j] != '.'
}

/// Whether `name` holds no dot at all.
pub open spec fn has_no_dot(name: Seq<char>) -> bool {
    forall|j: int| 0 <= j < name.len() ==> name[j] != '.'
}

/// The place of the last dot of `name`, where it has one.
pub open spec fn spec_last_dot(name: Seq<char>) -> Option<int> {
    if exists|i: int| is_last_dot(name, i) {
        Some(choose|i: int| is_last_dot(name, i))
    } else {
        None
    }
}

/// A name has at most one last dot.
pub proof fn lemma_last_dot_is(name: Seq<char>, i: int)
    requires
        is_last_dot(name, i),
    ensures
        spec_last_dot(name) == Some(i),
{
    let k = choose|k: int| is_last_dot(name, k);
    if k < i {
        assert(name[i] != '.');
    } else if i < k {
        assert(name[k] != '.');
    }
}

/// A name without a dot has no last dot.
pub proof fn lemma_last_dot_none(name: Seq<char>)
    requires
        has_no_dot(name),
    ensures
        spec_last_dot(name) is None,
{
    if exists|i: int| is_last_dot(name, i) {
        let k = choose|k: int| is_last_dot(name, k);
        assert(name[k] != '.');
    }
}

/// Whether `name` can be the name of a file: it is not empty and is neither
/// of the two directory names `.` and `..`.
pub open spec fn is_file_name(name: Seq<char>) -> bool {
    &&& name.len() > 0
    &&& name != seq!['.']
    &&& name != seq!['.', '.']
}

/// Where a file name parts into stem and extension: at its last dot, unless
/// that dot opens the name.
pub open spec fn spec_split_point(name: Seq<char>) -> Option<int> {
    match spec_last_dot(name) {
        Some(i) => if i > 0 && is_file_name(name) {
            Some(i)
        } else {
            None
        },
        None => None,
    }
}

/// The split point is a dot inside the name, and never its first character.
pub proof fn lemma_split_point_is_inside(name: Seq<char>)
    ensures
        spec_split_point(name) matches Some(i) ==> 0 < i < name.len() && is_last_dot(name, i),
{
}

/// The name without its extension: what stands before the last dot, or the
/// whole name where it has no dot or only the one that opens it.
pub open spec fn spec_file_stem(name: Seq<char>) -> Option<Seq<char>> {
    if !is_file_name(name) {
        None
    } else {
        match spec_split_point(name) {
            Some(i) => Some(name.take(i)),
            None => Some(name),
        }
    }
}

/// The extension of the name: what stands behind the last dot, unless that
/// dot opens the name.
pub open spec fn spec_extension(name: Seq<char>) -> Option<Seq<char>> {
    match spec_split_point(name) {
        Some(i) => Some(name.skip(i + 1)),
        None => None,
    }
}

/// Compares two texts character by character.
pub fn same_text(a: &str, b: &str) -> (same: bool)
    ensures
        same == (a@ == b@),
{
    broadcast use vstd::string::group_string_axioms;

    if a.unicode_len() != b.unicode_len() {
        return false;
    }
    let mut rest = b.chars();
    let mut same = true;
    for c in it: a.chars()
        invariant
            it.seq() == a@,
            a@.len() == b@.len(),
            rest.remaining() == b@.skip(it.index()),
            same <==> a@.take(it.index()) =~= b@.take(it.index()),
    {
        let ghost i = it.index();
        let other = rest.next();
        assert(other == Some(b@[i]));
        assert(a@.take(i + 1) == a@.take(i).push(a@[i]));
        assert(b@.take(i + 1) == b@.take(i).push(b@[i]));
        assert(b@.skip(i).drop_first() == b@.skip(i + 1));
        assert(a@.take(i + 1).drop_last() == a@.take(i));
        assert(b@.take(i + 1).drop_last() == b@.take(i));
        assert(a@.take(i + 1).last() == c);
        assert(b@.take(i + 1).last() == b@[i]);
        match other {
            Some(d) => {
                if d != c {
                    same = false;
                }
            },
            None => {
                same = false;
            },
        }
    }
    assert(a@.take(a@.len() as int) == a@);
    assert(b@.take(b@.len() as int) == b@);
    same
}

/// Finds the last dot of `name`.
pub fn last_dot(name: &str) -> (found: Option<usize>)
    ensures
        match found {
            Some(i) => spec_last_dot(name@) == Some(i as int),
            None => spec_last_dot(name@) is None,
        },
{
    broadcast use vstd::string::axiom_spec_iter;

    let len = name.unicode_len();
    let mut found: Option<usize> = None;
    let mut n: usize = 0;
    for c in it: name.chars()
        invariant
            it.seq() == name@,
            len == name@.len(),
            n == it.index(),
            match found {
                Some(i) => i < n && name@[i as int] == '.' && forall|j: int|
                    i < j < n ==> name@[j] != '.',
                None => forall|j: int| 0 <= j < n ==> name@[j] != '.',
            },
    {
        if c == '.' {
            found = Some(n);
        }
        n = n + 1;
    }
    proof {
        match found {
            Some(i) => lemma_last_dot_is(name@, i as int),
            None => lemma_last_dot_none(name@),
        }
    }
    found
}

/// Tells whether `name` can be the name of a file.
pub fn names_a_file(name: &str) -> (named: bool)
    ensures
        named == is_file_name(name@),
{
    proof {
        reveal_strlit(".");
        reveal_strlit("..");
    }
    assert("."@ =~= seq!['.']);
    assert(".."@ =~= seq!['.', '.']);
    !(name.unicode_len() == 0 || same_text(name, ".") || same_text(name, ".."))
}

/// Finds where `name` parts into stem and extension.
pub fn split_point(name: &str) -> (at: Option<usize>)
    ensures
        match at {
            Some(i) => spec_split_point(name@) == Some(i as int),
            None => spec_split_point(name@) is None,
        },
{
    match last_dot(name) {
        Some(i) => if i > 0 && names_a_file(name) {
            Some(i)
        } else {
            None
        },
        None => None,
    }
}

/// The name without its extension. A name that cannot be a file's has no
/// stem; one without an extension is its own stem.
pub fn file_stem(name: &str) -> (stem: Option<&str>)
    ensures
        match stem {
            Some(s) => spec_file_stem(name@) == Some(s@),
            None => spec_file_stem(name@) is None,
        },
{
    if !names_a_file(name) {
        return None;
    }
    match split_point(name) {
        Some(i) => {
            proof {
                lemma_split_point_is_inside(name@);
            }
            let stem = name.substring_char(0, i);
            assert(stem@ =~= name@.take(i as int));
            Some(stem)
        },
        None => Some(name),
    }
}

/// The extension of the name, without the dot.
pub fn extension(name: &str) -> (ext: Option<&str>)
    ensures
        match ext {
            Some(e) => spec_extension(name@) == Some(e@),
            None => spec_extension(name@) is None,
        },
{
    match split_point(name) {
        Some(i) => {
            proof {
                lemma_split_point_is_inside(name@);
            }
            let len = name.unicode_len();
            let ext = name.substring_char(i + 1, len);
            assert(ext@ =~= name@.skip(i as int + 1));
            Some(ext)
        },
        None => None,
    }
}

} // verus!

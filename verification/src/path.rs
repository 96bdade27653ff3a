//! Paths as text: the three questions that are put to `std::path`, the split
//! of a file name at its last dot, and the walk along a path that tells
//! whether it stays inside the directory that it is read from.
//!
//! `std::path` reads a path by the rules of the platform that the crate is
//! built for. What it answers is named here, not spelt out: on every run of
//! one build the same text gets the same answer.

use vstd::prelude::*;
use vstd::string::*;

verus! {

/// The last component of `path` as `std::path::Path::file_name` gives it, if
/// the path has one.
pub uninterp spec fn file_name_of(path: Seq<char>) -> Option<Seq<char>>;

/// `path` without its last component as `std::path::Path::parent` gives it,
/// if there is such a path.
pub uninterp spec fn parent_of(path: Seq<char>) -> Option<Seq<char>>;

/// `tail` adjoined to `base` as `std::path::Path::join` does it.
pub uninterp spec fn joined(base: Seq<char>, tail: Seq<char>) -> Seq<char>;

/// Calls `std::path::Path::file_name` on `path`. The result is a function of
/// the path's text alone, and the contract only gives it its name; nothing is
/// claimed of what the name is.
#[verifier::external_body]
pub(crate) fn path_file_name(path: &str) -> (name: Option<String>)
    ensures
        match name {
            Some(text) => file_name_of(path@) == Some(text@),
            None => file_name_of(path@) is None,
        },
{
    match std::path::Path::new(path).file_name() {
        Some(name) => Some(name.to_string_lossy().into_owned()),
        None => None,
    }
}

/// Calls `std::path::Path::parent` on `path`. The result is a function of the
/// path's text alone, and the contract only gives it its name.
#[verifier::external_body]
pub(crate) fn path_parent(path: &str) -> (parent: Option<String>)
    ensures
        match parent {
            Some(text) => parent_of(path@) == Some(text@),
            None => parent_of(path@) is None,
        },
{
    match std::path::Path::new(path).parent() {
        Some(parent) => Some(parent.to_string_lossy().into_owned()),
        None => None,
    }
}

/// Calls `std::path::Path::join` on `base` with `tail`. The result is a
/// function of the two texts alone, and the contract only gives it its name.
#[verifier::external_body]
pub(crate) fn path_join(base: &str, tail: &str) -> (path: String)
    ensures
        path@ == joined(base@, tail@),
{
    std::path::Path::new(base).join(tail).to_string_lossy().into_owned()
}

/// Where a file name parts into stem and extension: at its last dot, unless
/// that dot begins the name or there is none.
pub open spec fn split_point(name: Seq<char>) -> Option<int> {
    match name.index_of_last('.') {
        Some(at) => if at > 0 {
            Some(at)
        } else {
            None
        },
        None => None,
    }
}

/// The stem of a file name: what stands before its last dot. A name without
/// a dot, or with none but the one that begins it, is all stem.
pub open spec fn stem_of(name: Seq<char>) -> Seq<char> {
    match split_point(name) {
        Some(at) => name.subrange(0, at),
        None => name,
    }
}

/// The extension of a file name: what stands after its last dot. A name
/// without a dot, or with none but the one that begins it, has the empty
/// extension.
pub open spec fn extension_of(name: Seq<char>) -> Seq<char> {
    match split_point(name) {
        Some(at) => name.subrange(at + 1, name.len() as int),
        None => Seq::empty(),
    }
}

/// The position of the last dot of `name`.
fn last_dot(name: &str) -> (found: Option<usize>)
    ensures
        match found {
            Some(at) => name@.index_of_last('.') == Some(at as int) && at < name@.len(),
            None => name@.index_of_last('.') is None,
        },
{
    let length = name.unicode_len();
    let mut found: Option<usize> = None;
    let mut index: usize = 0;
    while index < length
        invariant
            index <= length == name@.len(),
            match found {
                Some(at) => {
                    &&& at < index
                    &&& name@[at as int] == '.'
                    &&& forall|i: int| at < i < index ==> name@[i] != '.'
                },
                None => forall|i: int| 0 <= i < index ==> name@[i] != '.',
            },
        decreases length - index,
    {
        if name.get_char(index) == '.' {
            found = Some(index);
        }
        index = index + 1;
    }
    proof {
        name@.index_of_last_ensures('.');
    }
    found
}

/// Parts a file name into its stem and its extension.
pub fn split_file_name(name: &str) -> (parts: (String, String))
    ensures
        parts.0@ == stem_of(name@),
        parts.1@ == extension_of(name@),
{
    match last_dot(name) {
        Some(at) if at > 0 => {
            let length = name.unicode_len();
            let stem = name.substring_char(0, at).to_owned();
            let extension = name.substring_char(at + 1, length).to_owned();
            (stem, extension)
        },
        _ => (name.to_owned(), String::new()),
    }
}

/// The components of `path`: the texts between its slashes, from left to
/// right. There is always one more of them than there are slashes, and a
/// component is empty where a slash begins or ends the path or follows
/// another.
pub open spec fn components(path: Seq<char>) -> Seq<Seq<char>>
    decreases path.len(),
{
    if path.len() == 0 {
        seq![Seq::empty()]
    } else if path.last() == '/' {
        components(path.drop_last()).push(Seq::empty())
    } else {
        let before = components(path.drop_last());
        before.drop_last().push(before.last().push(path.last()))
    }
}

/// Whether `component` is `..`, the step to the directory above.
pub open spec fn climbs(component: Seq<char>) -> bool {
    component.len() == 2 && component[0] == '.' && component[1] == '.'
}

/// Whether `component` is empty or `.`, and so leads nowhere.
pub open spec fn stands(component: Seq<char>) -> bool {
    component.len() == 0 || (component.len() == 1 && component[0] == '.')
}

/// How many directories below the root a walk is after `component`, if it is
/// `depth` below before: one more after a name, the same after an empty
/// component or `.`, one less after `..`. A `..` at the root leaves the
/// root, and a walk that has left it has left it for good.
pub open spec fn depth_after(depth: Option<nat>, component: Seq<char>) -> Option<nat> {
    match depth {
        None => None,
        Some(below) => if stands(component) {
            Some(below)
        } else if climbs(component) {
            if below == 0 {
                None
            } else {
                Some((below - 1) as nat)
            }
        } else {
            Some(below + 1)
        },
    }
}

/// How many directories below the root a walk along `steps` ends, from the
/// root and from left to right, if it never leaves the root.
pub open spec fn walk(steps: Seq<Seq<char>>) -> Option<nat>
    decreases steps.len(),
{
    if steps.len() == 0 {
        Some(0)
    } else {
        depth_after(walk(steps.drop_last()), steps.last())
    }
}

/// Whether `source`, read from a directory, names nothing outside that
/// directory: it is relative, and read from left to right none of its `..`
/// comes at the directory itself. So `a/../b` stays, and `a/..`, which names
/// the directory itself; `../b` and `a/../../b` do not. This goes by the text
/// alone and takes `/` for the separator; it does not follow links.
pub open spec fn stays_under_root(source: Seq<char>) -> bool {
    &&& source.len() > 0 ==> source[0] != '/'
    &&& walk(components(source)) is Some
}

/// One more character makes the last component longer, or, where it is a
/// slash, begins a new and empty one.
pub proof fn lemma_components_grow(path: Seq<char>, next: char)
    ensures
        components(path.push(next)) == if next == '/' {
            components(path).push(Seq::empty())
        } else {
            components(path).drop_last().push(components(path).last().push(next))
        },
        components(path).len() > 0,
    decreases path.len(),
{
    assert(path.push(next).drop_last() == path);
    if path.len() > 0 {
        lemma_components_grow(path.drop_last(), path.last());
    }
}

/// A walk along one more component ends where that component leads from the
/// end of the walk before it.
pub proof fn lemma_walk_grows(steps: Seq<Seq<char>>, component: Seq<char>)
    ensures
        walk(steps.push(component)) == depth_after(walk(steps), component),
{
    assert(steps.push(component).drop_last() == steps);
}

/// The empty path stays where it is read from.
pub proof fn lemma_empty_path_stays_under_root()
    ensures
        stays_under_root(Seq::empty()),
{
    let steps = components(Seq::empty());
    assert(steps.drop_last() == Seq::<Seq<char>>::empty());
    assert(walk(steps.drop_last()) == Some(0nat));
}

/// The depth after the component of `path` from `start` to `end`.
fn step_over(path: &str, start: usize, end: usize, depth: Option<usize>) -> (after: Option<usize>)
    requires
        start <= end <= path@.len(),
        depth matches Some(below) ==> below < usize::MAX,
    ensures
        after matches Some(reached) ==> depth matches Some(below) && reached <= below + 1 && (
        reached == below + 1 ==> start < end),
        match after {
            Some(below) => depth_after(
                match depth {
                    Some(below) => Some(below as nat),
                    None => None,
                },
                path@.subrange(start as int, end as int),
            ) == Some(below as nat),
            None => depth_after(
                match depth {
                    Some(below) => Some(below as nat),
                    None => None,
                },
                path@.subrange(start as int, end as int),
            ) is None,
        },
{
    let below = match depth {
        Some(below) => below,
        None => return None,
    };
    let length = end - start;
    if length == 0 {
        return Some(below);
    }
    let dotted = path.get_char(start) == '.';
    if length == 1 && dotted {
        return Some(below);
    }
    if length == 2 && dotted && path.get_char(start + 1) == '.' {
        return if below == 0 {
            None
        } else {
            Some(below - 1)
        };
    }
    Some(below + 1)
}

/// Whether `source`, read from a directory, names nothing outside it.
pub fn source_stays_under_root(source: &str) -> (stays: bool)
    ensures
        stays == stays_under_root(source@),
{
    let length = source.unicode_len();
    if length > 0 && source.get_char(0) == '/' {
        return false;
    }
    let ghost mut done: Seq<Seq<char>> = Seq::empty();
    let mut depth: Option<usize> = Some(0);
    let mut start: usize = 0;
    let mut at: usize = 0;
    proof {
        assert(source@.take(0) == Seq::<char>::empty());
        assert(source@.subrange(0, 0) == Seq::<char>::empty());
        assert(done.push(Seq::empty()) == seq![Seq::<char>::empty()]);
    }
    while at < length
        invariant
            start <= at <= length == source@.len(),
            components(source@.take(at as int)) == done.push(
                source@.subrange(start as int, at as int),
            ),
            match depth {
                Some(below) => walk(done) == Some(below as nat) && 2 * below <= start,
                None => walk(done) is None,
            },
        decreases length - at,
    {
        proof {
            assert(source@.take(at + 1) == source@.take(at as int).push(source@[at as int]));
            lemma_components_grow(source@.take(at as int), source@[at as int]);
            assert(done.push(source@.subrange(start as int, at as int)).drop_last() == done);
        }
        if source.get_char(at) == '/' {
            depth = step_over(source, start, at, depth);
            proof {
                lemma_walk_grows(done, source@.subrange(start as int, at as int));
                done = done.push(source@.subrange(start as int, at as int));
                assert(source@.subrange(at + 1, at + 1) == Seq::<char>::empty());
            }
            start = at + 1;
        } else {
            assert(source@.subrange(start as int, at as int).push(source@[at as int])
                == source@.subrange(start as int, at + 1));
        }
        at = at + 1;
    }
    let after = step_over(source, start, at, depth);
    proof {
        assert(source@.take(at as int) == source@);
        lemma_walk_grows(done, source@.subrange(start as int, at as int));
    }
    after.is_some()
}

} // verus!

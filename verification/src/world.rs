//! Where a job's files are: the project root and the paths below it.
//!
//! Paths are texts whose names are separated by `/`. They are resolved
//! lexically: nothing here looks at a file system.

use vstd::prelude::*;
use vstd::string::StringExecFns;
use vstd::string::StrSliceExecFns;
use crate::text::{rank, Rank};

verus! {

/// The names walked so far after one more name of a path is taken in: an empty
/// name and `.` change nothing, `..` leaves the last name again, and any other
/// name is added. `None` where `..` would leave the place where the walk began.
pub open spec fn step(names: Seq<Seq<char>>, name: Seq<char>) -> Option<Seq<Seq<char>>> {
    if name.len() == 0 || name == "."@ {
        Some(names)
    } else if name == ".."@ {
        if names.len() == 0 {
            None
        } else {
            Some(names.drop_last())
        }
    } else {
        Some(names.push(name))
    }
}

/// The walk through the complete names of a path, and the name that its end is
/// in. `None` where the walk has left the place where it began.
pub open spec fn walk(path: Seq<char>) -> Option<(Seq<Seq<char>>, Seq<char>)>
    decreases path.len(),
{
    if path.len() == 0 {
        Some((Seq::empty(), Seq::empty()))
    } else {
        match walk(path.drop_last()) {
            None => None,
            Some((names, name)) => if path.last() == '/' {
                match step(names, name) {
                    None => None,
                    Some(names) => Some((names, Seq::empty())),
                }
            } else {
                Some((names, name.push(path.last())))
            },
        }
    }
}

/// The names that a path leads through, from where it begins. `None` where
/// the path leaves that place.
pub open spec fn descent(path: Seq<char>) -> Option<Seq<Seq<char>>> {
    match walk(path) {
        None => None,
        Some((names, name)) => step(names, name),
    }
}

/// Whether a name appended to this path needs a separator before it.
pub open spec fn needs_separator(path: Seq<char>) -> bool {
    path.len() > 0 && path.last() != '/'
}

/// A path with one more name at its end.
pub open spec fn with_name(path: Seq<char>, name: Seq<char>) -> Seq<char> {
    if needs_separator(path) {
        path + "/"@ + name
    } else {
        path + name
    }
}

/// A path with more names at its end.
pub open spec fn with_names(path: Seq<char>, names: Seq<Seq<char>>) -> Seq<char>
    decreases names.len(),
{
    if names.len() == 0 {
        path
    } else {
        with_name(with_names(path, names.drop_last()), names.last())
    }
}

/// Where a path leads when it is taken relative to a root: the root with the
/// names that the path leads through. `None` where the path leaves the root.
pub open spec fn spec_resolve(path: Seq<char>, root: Seq<char>) -> Option<Seq<char>> {
    match descent(path) {
        None => None,
        Some(names) => Some(with_names(root, names)),
    }
}

/// The texts of a sequence of string slices.
pub open spec fn texts(names: Seq<&str>) -> Seq<Seq<char>> {
    Seq::new(names.len(), |i: int| names[i]@)
}

/// Whatever a path resolves to begins with the root.
pub proof fn lemma_resolved_below_root(path: Seq<char>, root: Seq<char>)
    ensures
        spec_resolve(path, root) matches Some(resolved) ==> root.is_prefix_of(resolved),
{
    if let Some(names) = descent(path) {
        lemma_with_names_extends(root, names);
    }
}

/// Adding names to a path keeps the path as the beginning.
pub proof fn lemma_with_names_extends(path: Seq<char>, names: Seq<Seq<char>>)
    ensures
        path.is_prefix_of(with_names(path, names)),
    decreases names.len(),
{
    if names.len() > 0 {
        let shorter = with_names(path, names.drop_last());
        lemma_with_names_extends(path, names.drop_last());
        let longer = with_name(shorter, names.last());
        assert(shorter.is_prefix_of(longer)) by {
            assert(longer.subrange(0, shorter.len() as int) =~= shorter);
        }
        assert(path.is_prefix_of(longer)) by {
            assert(shorter.subrange(0, path.len() as int) == path);
            assert(longer.subrange(0, path.len() as int) =~= shorter.subrange(0, path.len() as int));
        }
    } else {
        assert(path.subrange(0, path.len() as int) =~= path);
    }
}

/// Takes one more name into the names walked so far.
fn take<'a>(names: &mut Vec<&'a str>, name: &'a str) -> (inside: bool)
    ensures
        match step(texts(old(names)@), name@) {
            Some(after) => inside && texts(final(names)@) == after,
            None => !inside,
        },
{
    if name.unicode_len() == 0 {
        true
    } else if rank(name, ".") == Rank::Same {
        true
    } else if rank(name, "..") == Rank::Same {
        if names.len() == 0 {
            false
        } else {
            let ghost before = texts(names@);
            names.pop();
            assert(texts(names@) =~= before.drop_last());
            true
        }
    } else {
        let ghost before = texts(names@);
        names.push(name);
        assert(texts(names@) =~= before.push(name@));
        true
    }
}

/// Whether a name appended to this path needs a separator before it.
fn wants_separator(path: &str) -> (wanted: bool)
    ensures
        wanted == needs_separator(path@),
{
    let n = path.unicode_len();
    n > 0 && path.get_char(n - 1) != '/'
}

/// Resolve the virtual path relative to an actual file system root
/// (where the project or package resides).
///
/// Returns `None` if the path lexically escapes the root. The path might
/// still escape through symlinks.
pub fn resolve(path: &str, root: &str) -> (resolved: Option<String>)
    ensures
        match resolved {
            Some(found) => spec_resolve(path@, root@) == Some(found@),
            None => spec_resolve(path@, root@) is None,
        },
        resolved matches Some(found) ==> root@.is_prefix_of(found@),
{
    proof {
        lemma_resolved_below_root(path@, root@);
    }
    let total = path.unicode_len();
    let mut names: Vec<&str> = Vec::new();
    let mut start: usize = 0;
    let mut seen: usize = 0;
    assert(path@.subrange(0, 0) =~= Seq::<char>::empty());
    assert(texts(names@) =~= Seq::<Seq<char>>::empty());
    for c in it: path.chars()
        invariant
            seen == it.index(),
            it.seq() == path@,
            total == path@.len(),
            start <= seen <= total,
            walk(path@.subrange(0, seen as int)) == Some(
                (texts(names@), path@.subrange(start as int, seen as int)),
            ),
    {
        proof {
            assert(c == path@[seen as int]);
            assert(path@.subrange(0, seen + 1).drop_last() =~= path@.subrange(0, seen as int));
            assert(path@.subrange(0, seen + 1).last() == c);
        }
        if c == '/' {
            let name = path.substring_char(start, seen);
            if !take(&mut names, name) {
                proof {
                    lemma_walk_stays_lost(path@, seen + 1);
                }
                return None;
            }
            start = seen + 1;
            assert(path@.subrange(start as int, seen + 1) =~= Seq::<char>::empty());
        } else {
            assert(path@.subrange(start as int, seen + 1) =~= path@.subrange(
                start as int,
                seen as int,
            ).push(c));
        }
        seen = seen + 1;
    }
    assert(path@.subrange(0, seen as int) =~= path@);
    let name = path.substring_char(start, total);
    if !take(&mut names, name) {
        return None;
    }
    let mut out = root.to_owned();
    let mut i: usize = 0;
    assert(texts(names@).subrange(0, 0) =~= Seq::<Seq<char>>::empty());
    while i < names.len()
        invariant
            i <= names.len(),
            out@ == with_names(root@, texts(names@).subrange(0, i as int)),
        decreases names.len() - i,
    {
        proof {
            assert(texts(names@).subrange(0, i + 1).drop_last() =~= texts(names@).subrange(
                0,
                i as int,
            ));
        }
        if wants_separator(out.as_str()) {
            out.append("/");
        }
        out.append(names[i]);
        i = i + 1;
    }
    assert(texts(names@).subrange(0, i as int) =~= texts(names@));
    Some(out)
}

/// Once the beginning of a path has left the root, the whole path has.
proof fn lemma_walk_stays_lost(path: Seq<char>, n: int)
    requires
        0 <= n <= path.len(),
        walk(path.subrange(0, n)) is None,
    ensures
        walk(path) is None,
        descent(path) is None,
    decreases path.len() - n,
{
    if n < path.len() {
        assert(path.subrange(0, n + 1).drop_last() =~= path.subrange(0, n));
        lemma_walk_stays_lost(path, n + 1);
    } else {
        assert(path.subrange(0, n) =~= path);
    }
}

} // verus!

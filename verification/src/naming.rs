//! The name under which a newly added application is first listed.

use vstd::prelude::*;
use vstd::std_specs::iter::IteratorSpec;

verus! {

/// The character that separates the components of a path.
pub const SEPARATOR: char = '/';

/// Index of the last separator in `path`, or `-1` where it holds none.
pub open spec fn last_separator(path: Seq<char>) -> int
    decreases path.len(),
{
    if path.len() == 0 {
        -1
    } else if path.last() == SEPARATOR {
        path.len() - 1
    } else {
        last_separator(path.drop_last())
    }
}

/// The name of the binary at `path`: what follows the last separator, or the
/// whole path where nothing follows it.
pub open spec fn binary_name(path: Seq<char>) -> Seq<char> {
    if last_separator(path) + 1 < path.len() {
        path.subrange(last_separator(path) + 1, path.len() as int)
    } else {
        path
    }
}

/// `last_separator` is what its name says: a separator stands at that index
/// and none stands behind it.
pub proof fn lemma_last_separator(path: Seq<char>)
    ensures
        -1 <= last_separator(path) < path.len(),
        last_separator(path) >= 0 ==> path[last_separator(path)] == SEPARATOR,
        forall|k: int| last_separator(path) < k < path.len() ==> path[k] != SEPARATOR,
    decreases path.len(),
{
    if path.len() > 0 && path.last() != SEPARATOR {
        let front = path.drop_last();
        lemma_last_separator(front);
        assert forall|k: int| last_separator(path) < k < path.len() implies path[k]
            != SEPARATOR by {
            if k < front.len() {
                assert(path[k] == front[k]);
            }
        }
    }
}

/// The binary's name is never empty for a path that is not, and it is a
/// suffix of the path.
pub proof fn lemma_binary_name(path: Seq<char>)
    ensures
        path.len() > 0 ==> binary_name(path).len() > 0,
        binary_name(path).len() <= path.len(),
        binary_name(path) == path.subrange(
            path.len() - binary_name(path).len(),
            path.len() as int,
        ),
{
    lemma_last_separator(path);
    assert(path.subrange(0, path.len() as int) =~= path);
}

/// Computes [`binary_name`] of `path`.
pub fn binary_name_of(path: &str) -> (name: String)
    ensures
        name@ == binary_name(path@),
{
    let total: usize = path.unicode_len();
    let mut chars = path.chars();
    let mut seen: usize = 0;
    let mut start: usize = 0;
    proof {
        broadcast use vstd::string::axiom_spec_iter;
        assert(path@.subrange(0, path@.len() as int) =~= path@);
        assert(path@.subrange(0, 0) =~= Seq::<char>::empty());
    }
    loop
        invariant
            total == path@.len(),
            seen <= total,
            chars.obeys_prophetic_iter_laws(),
            chars.remaining() == path@.subrange(seen as int, total as int),
            start == last_separator(path@.subrange(0, seen as int)) + 1,
        ensures
            seen == total,
        decreases total - seen,
    {
        let ghost before = chars;
        let next = chars.next();
        proof {
            broadcast use vstd::string::next_postcondition;
        }
        match next {
            Some(c) => {
                assert(seen < total);
                assert(c == path@[seen as int]);
                proof {
                    let grown = path@.subrange(0, seen + 1);
                    assert(grown.last() == c);
                    assert(grown.drop_last() =~= path@.subrange(0, seen as int));
                    assert(before.remaining().drop_first() =~= path@.subrange(
                        seen + 1,
                        total as int,
                    ));
                }
                seen += 1;
                if c == SEPARATOR {
                    start = seen;
                }
            },
            None => {
                assert(seen == total);
                break ;
            },
        }
    }
    proof {
        assert(path@.subrange(0, total as int) =~= path@);
    }
    if start < total {
        path.substring_char(start, total).to_owned()
    } else {
        path.to_owned()
    }
}

} // verus!

//! Scanning of short texts: the two parts of an authorization header and the
//! leading word of a content type.

use vstd::prelude::*;
use vstd::std_specs::iter::IteratorSpec;

verus! {

/// Whether the one and only space of `text` stands at `at`.
pub open spec fn only_space_at(text: Seq<char>, at: int) -> bool {
    &&& 0 <= at < text.len()
    &&& text[at] == ' '
    &&& forall|j: int| 0 <= j < text.len() && j != at ==> text[j] != ' '
}

/// What follows the space of a text that holds exactly one space; `None` for
/// a text with no space or with several.
pub open spec fn after_only_space(text: Seq<char>) -> Option<Seq<char>> {
    if exists|at: int| only_space_at(text, at) {
        Some(text.skip((choose|at: int| only_space_at(text, at)) + 1))
    } else {
        None
    }
}

/// Splits a text that holds exactly one space and returns what follows the
/// space.
pub fn second_of_two(text: &str) -> (second: Option<&str>)
    ensures
        match second {
            Some(part) => after_only_space(text@) == Some(part@),
            None => after_only_space(text@) is None,
        },
{
    broadcast use vstd::string::group_string_axioms;

    let total: usize = text.unicode_len();
    let mut chars = text.chars();
    let mut seen: usize = 0;
    let mut spaces: u8 = 0;
    let mut first: usize = 0;
    let ghost mut other: int = 0;
    loop
        invariant
            chars.obeys_prophetic_iter_laws(),
            total == text@.len(),
            seen <= total,
            chars.remaining() == text@.skip(seen as int),
            spaces <= 2,
            spaces == 0 ==> forall|j: int| 0 <= j < seen ==> text@[j] != ' ',
            spaces >= 1 ==> first < seen && text@[first as int] == ' ',
            spaces == 1 ==> forall|j: int| 0 <= j < seen && j != first ==> text@[j] != ' ',
            spaces == 2 ==> 0 <= other < seen && other != first && text@[other] == ' ',
        ensures
            seen == text@.len(),
        decreases text@.len() - seen,
    {
        match chars.next() {
            None => {
                break ;
            },
            Some(c) => {
                assert(c == text@[seen as int]);
                if c == ' ' {
                    if spaces == 0 {
                        first = seen;
                        spaces = 1;
                    } else {
                        proof {
                            other = seen as int;
                        }
                        spaces = 2;
                    }
                }
                seen = seen + 1;
            },
        }
    }
    if spaces == 1 {
        assert(only_space_at(text@, first as int));
        let ghost at = choose|at: int| only_space_at(text@, at);
        assert(at == first);
        Some(text.substring_char(first + 1, seen))
    } else {
        assert forall|at: int| !only_space_at(text@, at) by {
            if spaces == 2 && only_space_at(text@, at) {
                assert(text@[first as int] == ' ');
                assert(text@[other] == ' ');
            }
        }
        None
    }
}

/// Whether `text` begins with `prefix`.
pub fn starts_with(text: &str, prefix: &str) -> (yes: bool)
    ensures
        yes == prefix@.is_prefix_of(text@),
{
    broadcast use vstd::string::group_string_axioms;

    let mut rest = text.chars();
    let mut wanted = prefix.chars();
    let ghost mut seen: int = 0;
    loop
        invariant
            rest.obeys_prophetic_iter_laws(),
            wanted.obeys_prophetic_iter_laws(),
            0 <= seen <= prefix@.len(),
            seen <= text@.len(),
            rest.remaining() == text@.skip(seen),
            wanted.remaining() == prefix@.skip(seen),
            forall|j: int| 0 <= j < seen ==> text@[j] == prefix@[j],
        decreases prefix@.len() - seen,
    {
        match wanted.next() {
            None => {
                assert(prefix@ =~= text@.subrange(0, prefix@.len() as int));
                return true;
            },
            Some(w) => {
                assert(w == prefix@[seen]);
                match rest.next() {
                    None => {
                        return false;
                    },
                    Some(c) => {
                        assert(c == text@[seen]);
                        if c != w {
                            assert(!prefix@.is_prefix_of(text@)) by {
                                if prefix@.len() <= text@.len() {
                                    assert(text@.subrange(0, prefix@.len() as int)[seen]
                                        == text@[seen]);
                                }
                            }
                            return false;
                        }
                        proof {
                            seen = seen + 1;
                        }
                    },
                }
            },
        }
    }
}

} // verus!

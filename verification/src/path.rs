//! Map paths as they are announced.

use vstd::prelude::*;
use vstd::string::*;

verus! {

/// A character of a path with the backslash turned into a slash.
pub open spec fn forward_slash(c: char) -> char {
    if c == '\\' {
        '/'
    } else {
        c
    }
}

/// A path with every backslash turned into a slash.
pub open spec fn spec_normalize_path(path: Seq<char>) -> Seq<char> {
    Seq::new(path.len(), |i: int| forward_slash(path[i]))
}

/// `String::push` of the standard library: the character is appended at
/// the end of the text, and nothing else changes.
pub assume_specification[ String::push ](text: &mut String, c: char)
    ensures
        final(text)@ == old(text)@.push(c),
;

/// Turns every backslash of a path into a slash.
pub fn normalize_path(path: &str) -> (normalized: String)
    ensures
        normalized@ == spec_normalize_path(path@),
{
    broadcast use axiom_spec_iter;

    let mut normalized = String::new();
    for c in it: path.chars()
        invariant
            it.seq() == path@,
            normalized@ == spec_normalize_path(path@.take(it.index() as int)),
    {
        assert(path@.take(it.index() + 1) =~= path@.take(it.index() as int).push(c));
        if c == '\\' {
            normalized.push('/');
        } else {
            normalized.push(c);
        }
        assert(normalized@ =~= spec_normalize_path(path@.take(it.index() + 1)));
    }
    assert(path@.take(path@.len() as int) =~= path@);
    normalized
}

} // verus!

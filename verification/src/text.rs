//! Facts about text as sequences of characters.

use vstd::prelude::*;

verus! {

/// `needle` stands in `text` from position `at` on, character for character.
pub open spec fn occurs_at(needle: Seq<char>, text: Seq<char>, at: int) -> bool {
    &&& 0 <= at
    &&& at + needle.len() <= text.len()
    &&& text.subrange(at, at + needle.len()) == needle
}

/// `needle` stands somewhere in `text`, unbroken.
pub open spec fn occurs_in(needle: Seq<char>, text: Seq<char>) -> bool {
    exists|at: int| occurs_at(needle, text, at)
}

/// Whatever is written before and after a piece of text, the piece stands in
/// the whole, right after what was written before it.
pub proof fn lemma_occurs_between(before: Seq<char>, needle: Seq<char>, after: Seq<char>)
    ensures
        occurs_at(needle, before + needle + after, before.len() as int),
        occurs_in(needle, before + needle + after),
{
    let whole = before + needle + after;
    let at = before.len() as int;
    assert(whole.subrange(at, at + needle.len()) =~= needle);
}

} // verus!

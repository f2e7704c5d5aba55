use vstd::prelude::*;

verus! {

/// Appends one character to a string (`String::push`); std documents that
/// the character is added at the end.
#[verifier::external_body]
pub(crate) fn push_char(s: &mut String, c: char)
    ensures
        final(s)@ == old(s)@.push(c),
{
    s.push(c);
}

} // verus!

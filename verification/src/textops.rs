//! Small trusted shims for `String` editing operations that the standard
//! library provides and the verifier has no specification for.

use vstd::prelude::*;

verus! {

/// Relies on `String::push`: appends the given character to the end of the
/// string.
#[verifier::external_body]
pub(crate) fn string_push(s: &mut String, c: char)
    ensures
        final(s)@ == old(s)@.push(c),
{
    s.push(c);
}

/// Relies on `char::from_u32`: returns `Some` exactly for Unicode scalar
/// values — everything up to 0x10FFFF except the surrogate range — and the
/// returned character has the given code.
#[verifier::external_body]
pub(crate) fn char_from_u32(v: u32) -> (r: Option<char>)
    ensures
        r matches Some(c) ==> c == (v as char),
        r is Some <==> (v < 0xD800 || (0xE000 <= v && v <= 0x10FFFF)),
{
    char::from_u32(v)
}

/// Relies on `String::pop`: removes the last character from the string and
/// returns it, or returns `None` when the string is empty.
#[verifier::external_body]
pub(crate) fn string_pop(s: &mut String) -> (r: Option<char>)
    ensures
        old(s)@.len() == 0 ==> final(s)@ == old(s)@ && r is None,
        old(s)@.len() > 0 ==> final(s)@ == old(s)@.drop_last() && r == Some(old(s)@.last()),
{
    s.pop()
}

} // verus!

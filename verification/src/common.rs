use vstd::prelude::*;

verus! {

/// The error kinds that identifier construction and parsing report.
///
/// `WrongLength` carries the character length of the rejected input.
/// `InvalidSegment(position, raw, parent)` carries the 1-based segment
/// position, the offending raw text and, for the category segment, the
/// code character of the authority under which the raw value was
/// rejected. `ChecksumMismatch(expected, actual)` carries the recomputed
/// checksum character and the character the input supplied in its place.
/// `ChecksumInputInvalid` marks an internal defect: a character reached
/// checksum computation without being rankable in the alphanumeric
/// alphabet, which cannot happen for segments built by their own
/// constructors.
#[derive(Debug, PartialEq, Eq)]
pub enum UsciError {
    WrongLength(usize),
    InvalidSegment(u32, String, Option<char>),
    ChecksumMismatch(char, char),
    ChecksumInputInvalid,
}

/// Relies on `String::push`: appends the given character to the end of
/// the string.
#[verifier::external_body]
pub(crate) fn push_char(s: &mut String, c: char)
    ensures
        final(s)@ == old(s)@.push(c),
{
    s.push(c)
}

/// A fresh one-character string, used to carry an offending raw
/// character inside an error value.
pub(crate) fn char_string(c: char) -> (s: String)
    ensures
        s@ == seq![c],
{
    let mut s = String::new();
    push_char(&mut s, c);
    proof {
        assert(s@ =~= seq![c]);
    }
    s
}

} // verus!

//! The guess buffer: a `compact_str::CompactString` behind a trusted
//! boundary.
//!
//! The game accumulates keystrokes in a `CompactString`. Verus does not
//! read that crate, so the type is declared opaque here, its contents are
//! named by the uninterpreted `buf_chars`, and each operation the game
//! uses gets a wrapper whose contract states, over `buf_chars`, what the
//! crate's own documentation and source promise.

use vstd::prelude::*;
use compact_str::CompactString;

verus! {

#[verifier::external_type_specification]
#[verifier::external_body]
pub struct ExCompactString(CompactString);

/// The characters a guess buffer holds, in order.
pub uninterp spec fn buf_chars(b: CompactString) -> Seq<char>;

/// Relies on `CompactString::with_capacity`: returns an empty string
/// (the capacity only pre-sizes the allocation).
#[verifier::external_body]
pub(crate) fn buf_new() -> (r: CompactString)
    ensures
        buf_chars(r) == Seq::<char>::empty(),
{
    CompactString::with_capacity(12)
}

/// Relies on `CompactString::push`: appends the character at the end.
#[verifier::external_body]
pub(crate) fn buf_push(b: &mut CompactString, c: char)
    ensures
        buf_chars(*final(b)) == buf_chars(*old(b)).push(c),
{
    b.push(c)
}

/// Relies on `CompactString::pop`: removes and returns the last
/// character, or returns `None` and leaves the string as it was when it
/// is empty.
#[verifier::external_body]
pub(crate) fn buf_pop(b: &mut CompactString) -> (r: Option<char>)
    ensures
        buf_chars(*old(b)).len() == 0 ==> r is None && *final(b) == *old(b),
        buf_chars(*old(b)).len() > 0 ==> {
            &&& r == Some(buf_chars(*old(b)).last())
            &&& buf_chars(*final(b)) == buf_chars(*old(b)).drop_last()
        },
{
    b.pop()
}

/// Relies on `CompactString::clear`: empties the string.
#[verifier::external_body]
pub(crate) fn buf_clear(b: &mut CompactString)
    ensures
        buf_chars(*final(b)) == Seq::<char>::empty(),
{
    b.clear()
}

/// Relies on `CompactString::as_str`: yields exactly the held characters.
#[verifier::external_body]
pub(crate) fn buf_to_string(b: &CompactString) -> (r: String)
    ensures
        r@ == buf_chars(*b),
{
    b.as_str().to_owned()
}

} // verus!

//! Checked conversions between `usize` and the engine's C `int`.
use vstd::prelude::*;
use libc::c_int;
use crate::error::Error;
use vstd::utf8::valid_utf8;
use vstd::string::StringSliceAdditionalSpecFns;

verus! {

/// Relies on `libc::INT_MAX`: the largest value of a C `int`.
#[verifier::external_body]
#[allow(deprecated)]
fn int_max() -> (r: c_int)
    ensures
        r == c_int::MAX,
{
    libc::INT_MAX
}

#[verifier::external_type_specification]
#[verifier::external_body]
pub struct ExUtf8Error(std::str::Utf8Error);

/// Relies on `std::str::from_utf8`: it succeeds exactly on valid UTF-8, and
/// the text it returns is made of the same bytes.
#[verifier::external_body]
pub(crate) fn utf8_text<'a>(bytes: &'a [u8]) -> (r: Result<&'a str, std::str::Utf8Error>)
    ensures
        r is Ok <==> valid_utf8(bytes@),
        r matches Ok(s) ==> s.spec_bytes() == bytes@,
{
    std::str::from_utf8(bytes)
}

/// What converting a `usize` to a C `int` gives: the same value when it
/// fits, else `IntOverflow`.
pub open spec fn to_int_result(n: usize) -> Result<c_int, Error> {
    if n <= c_int::MAX {
        Ok(n as c_int)
    } else {
        Err(Error::IntOverflow)
    }
}

/// What converting a C `int` to a `usize` gives: the same value when it is
/// non-negative and fits, else `IntOverflow`.
pub open spec fn to_usize_result(n: c_int) -> Result<usize, Error> {
    if 0 <= n <= usize::MAX {
        Ok(n as usize)
    } else {
        Err(Error::IntOverflow)
    }
}

/// Attempts to convert a `usize` to an `int` without overflow.
pub fn usize_to_int(n: usize) -> (r: Result<c_int, Error>)
    ensures
        r == to_int_result(n),
{
    let max = int_max();
    if n <= max as usize {
        Ok(n as c_int)
    } else {
        Err(Error::IntOverflow)
    }
}

/// Attempts to convert an `int` to a `usize` without under- or overflow.
pub fn int_to_usize(n: c_int) -> (r: Result<usize, Error>)
    ensures
        r == to_usize_result(n),
{
    if n < 0 {
        Err(Error::IntOverflow)
    } else {
        Ok(n as usize)
    }
}

/// A value that both types can hold survives the trip there and back, in
/// either direction; a value that the other type cannot hold fails that
/// direction with `IntOverflow`.
pub proof fn lemma_round_trip(n: usize, m: c_int)
    ensures
        n <= c_int::MAX ==> (to_int_result(n) matches Ok(c) && to_usize_result(c) == Ok::<usize, Error>(n)),
        n > c_int::MAX ==> to_int_result(n) == Err::<c_int, Error>(Error::IntOverflow),
        0 <= m ==> (to_usize_result(m) matches Ok(u) && to_int_result(u) == Ok::<c_int, Error>(m)),
        m < 0 ==> to_usize_result(m) == Err::<usize, Error>(Error::IntOverflow),
{
}

} // verus!

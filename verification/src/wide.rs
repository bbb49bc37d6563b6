//! The wide strings that name a pipe, as the `widestring` crate holds them.
//!
//! A wide C string is a run of 16-bit units that ends in a nul unit. This module makes the two
//! string types of `widestring` known to the verifier and states what the few operations that
//! the name model needs do to the units.

use vstd::prelude::*;
use widestring::{U16CStr, U16CString};

verus! {

/// `U16CStr` of `widestring`: a borrowed wide C string. Nothing is known of it but what the
/// functions below state.
#[verifier::external_type_specification]
#[verifier::external_body]
pub struct ExU16CStr(U16CStr);

/// `U16CString` of `widestring`: an owned wide C string. Nothing is known of it but what the
/// functions below state.
#[verifier::external_type_specification]
#[verifier::external_body]
pub struct ExU16CString(U16CString);

/// The units of a borrowed wide C string, the terminating nul included: what
/// `U16CStr::as_slice_with_nul` returns.
pub uninterp spec fn wide_units(s: &U16CStr) -> Seq<u16>;

/// The units of an owned wide C string, the terminating nul included: what
/// `as_slice_with_nul` returns for it.
pub uninterp spec fn wide_string_units(s: &U16CString) -> Seq<u16>;

/// `ToOwned::to_owned` of `U16CStr`: copies the units, terminator and all, into a new owned
/// string.
#[verifier::external_body]
pub(crate) fn wide_to_owned(s: &U16CStr) -> (owned: U16CString)
    ensures
        wide_string_units(&owned) == wide_units(s),
{
    s.to_owned()
}

/// `U16CString::as_ucstr`: the owned string seen as a slice, with the same units.
#[verifier::external_body]
pub(crate) fn wide_as_ucstr(s: &U16CString) -> (borrowed: &U16CStr)
    ensures
        wide_units(borrowed) == wide_string_units(s),
{
    s.as_ucstr()
}

/// `Default::default` of `U16CString`: the empty string, which holds the terminator alone.
#[verifier::external_body]
pub(crate) fn wide_empty() -> (empty: U16CString)
    ensures
        wide_string_units(&empty) == seq![0u16],
{
    U16CString::default()
}

/// `PartialEq::eq` of `U16CStr`: two strings are equal when their units are.
#[verifier::external_body]
pub(crate) fn wide_eq(a: &U16CStr, b: &U16CStr) -> (r: bool)
    ensures
        r == (wide_units(a) == wide_units(b)),
{
    a == b
}

} // verus!

//! Borrowed text handles.
//!
//! A [`StringRef`] is a non-owning view of a byte buffer held by the storage
//! that produced it (a diagnostic entry, a source buffer). The bytes are not
//! assumed to be valid UTF-8: conversion to `&str` validates them and fails
//! with [`TableGenError::InvalidText`] when they are not.

use vstd::prelude::*;
use vstd::utf8::decode_utf8;
use vstd::utf8::valid_utf8;

use crate::error::TableGenError;

verus! {

/// A borrowed view of a byte buffer, convertible to validated text.
///
/// The lifetime ties the view to the storage that owns the bytes, so a
/// `StringRef` can never outlive the collection or buffer it was read from.
#[derive(Clone, Copy, Debug)]
pub struct StringRef<'a> {
    bytes: &'a [u8],
}

impl<'a> View for StringRef<'a> {
    type V = Seq<u8>;

    closed spec fn view(&self) -> Seq<u8> {
        self.bytes@
    }
}

/// Relies on `core::str::from_utf8`: it succeeds exactly on valid UTF-8 input
/// and returns the slice reinterpreted as text, so the result's characters
/// are the UTF-8 decoding of the bytes.
#[verifier::external_body]
fn bytes_to_str<'a>(bytes: &'a [u8]) -> (r: Option<&'a str>)
    ensures
        r is Some <==> valid_utf8(bytes@),
        r matches Some(s) ==> s@ == decode_utf8(bytes@),
{
    core::str::from_utf8(bytes).ok()
}

impl<'a> StringRef<'a> {
    /// Creates a string reference viewing the given bytes.
    pub fn from_raw(bytes: &'a [u8]) -> (r: Self)
        ensures
            r@ == bytes@,
    {
        Self { bytes }
    }

    /// Returns the underlying bytes without validation.
    pub fn as_bytes(&self) -> (r: &'a [u8])
        ensures
            r@ == self@,
    {
        self.bytes
    }

    /// Validates the bytes as UTF-8 and returns them as text.
    ///
    /// Succeeds exactly when the bytes are valid UTF-8; otherwise reports a
    /// decode error. Repeated calls are idempotent: nothing is cached and
    /// nothing is consumed.
    pub fn as_str(&self) -> (r: Result<&'a str, TableGenError>)
        ensures
            r is Ok <==> valid_utf8(self@),
            r matches Ok(s) ==> s@ == decode_utf8(self@),
            r matches Err(e) ==> e == TableGenError::InvalidText,
    {
        match bytes_to_str(self.bytes) {
            Some(s) => Ok(s),
            None => Err(TableGenError::InvalidText),
        }
    }
}

} // verus!

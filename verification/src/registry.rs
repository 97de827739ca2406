//! The conversion discipline shared by every closed code space.
//!
//! A code space is a finite set of identifiers, each with one wire byte.
//! [`TypedIdentifier`] is that table as mathematics: the byte of each
//! identifier, the identifier of each byte that has one, and the proof that
//! the two are inverse to each other. [`CodeRegistry`] is the set of
//! conversions that run: the encoding, a checked decoding that reports a
//! byte without a meaning, and an unchecked one for a byte that is known to
//! have one.

use vstd::prelude::*;
use crate::error::CodeSpace;
use crate::error::UndefinedCode;

verus! {

/// An identifier of a closed code space.
pub trait TypedIdentifier: Sized {
    /// The wire byte of an identifier.
    spec fn code(self) -> u8;

    /// The identifier that `code` stands for, if it stands for one.
    spec fn decode(code: u8) -> Option<Self>;

    /// The code space that the identifiers belong to.
    spec fn space() -> CodeSpace;

    /// A byte stands for an identifier exactly when it is the byte of that
    /// identifier.
    proof fn lemma_decode_inverts_code(i: Self, code: u8)
        ensures
            Self::decode(code) == Some(i) <==> i.code() == code,
    ;
}

/// Whether `code` has an identifier in the code space of `I`.
pub open spec fn defined<I: TypedIdentifier>(code: u8) -> bool {
    I::decode(code) is Some
}

/// What the checked conversion makes of `code`: its identifier, or the
/// error that names the code space and the byte.
pub open spec fn checked<I: TypedIdentifier>(code: u8) -> Result<I, UndefinedCode> {
    match I::decode(code) {
        Some(i) => Ok(i),
        None => Err(UndefinedCode { space: I::space(), value: code }),
    }
}

/// The conversions of a closed code space.
pub trait CodeRegistry: TypedIdentifier {
    /// The wire byte of `self`.
    fn to_code(self) -> (c: u8)
        ensures
            c == self.code(),
    ;

    /// The identifier of `code`, or `UndefinedCode` when the code space has
    /// none for it.
    fn try_from_code(code: u8) -> (r: Result<Self, UndefinedCode>)
        ensures
            r == checked::<Self>(code),
    ;

    /// The identifier of a byte that the caller knows to be defined, as one
    /// that this registry encoded or that was checked before.
    fn from_code_unchecked(code: u8) -> (i: Self)
        requires
            defined::<Self>(code),
        ensures
            Self::decode(code) == Some(i),
    {
        match Self::try_from_code(code) {
            Ok(i) => i,
            Err(_) => unreached(),
        }
    }
}

/// Decoding the byte of an identifier gives the identifier back.
pub proof fn lemma_decode_code<I: TypedIdentifier>(i: I)
    ensures
        I::decode(i.code()) == Some(i),
{
    I::lemma_decode_inverts_code(i, i.code());
}

/// The checked conversion of an identifier's byte succeeds with that
/// identifier.
pub proof fn lemma_checked_code<I: TypedIdentifier>(i: I)
    ensures
        checked::<I>(i.code()) == Ok::<I, UndefinedCode>(i),
{
    lemma_decode_code(i);
}

/// A decoded identifier has the byte that it was decoded from.
pub proof fn lemma_code_decode<I: TypedIdentifier>(code: u8)
    ensures
        I::decode(code) matches Some(i) ==> i.code() == code,
{
    if let Some(i) = I::decode(code) {
        I::lemma_decode_inverts_code(i, code);
    }
}

/// No two identifiers share a byte.
pub proof fn lemma_code_injective<I: TypedIdentifier>(a: I, b: I)
    requires
        a.code() == b.code(),
    ensures
        a == b,
{
    I::lemma_decode_inverts_code(a, a.code());
    I::lemma_decode_inverts_code(b, a.code());
}

/// Two identifiers that differ have different bytes.
pub proof fn lemma_no_collision<I: TypedIdentifier>(a: I, b: I)
    requires
        a != b,
    ensures
        a.code() != b.code(),
{
    if a.code() == b.code() {
        lemma_code_injective(a, b);
    }
}

/// A byte is undefined exactly when no identifier has it.
pub proof fn lemma_undefined<I: TypedIdentifier>(code: u8)
    ensures
        !defined::<I>(code) <==> forall|i: I| #[trigger] i.code() != code,
{
    if let Some(j) = I::decode(code) {
        I::lemma_decode_inverts_code(j, code);
    } else {
        assert forall|i: I| #[trigger] i.code() != code by {
            I::lemma_decode_inverts_code(i, code);
        }
    }
}

} // verus!

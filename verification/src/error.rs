//! What can go wrong at the boundary.

use vstd::prelude::*;
use crate::convert::NativeType;
use crate::value::Tag;

verus! {

/// A dynamic value did not carry the tag that a native type asks for.
#[derive(Clone, Copy, Debug, PartialEq, Eq, Structural)]
pub struct TypeMismatch {
    /// The native type that was asked for.
    pub expected: NativeType,
    /// The tag that the value carried.
    pub found: Tag,
}

/// A failure that a native method raised by itself. The bridge hands it on
/// as it is.
#[derive(Debug, PartialEq)]
pub struct NativeFailure {
    pub message: String,
}

/// Why a lookup or a call through the bridge failed. Every failure ends the
/// call; the bridge never recovers from one by itself.
#[derive(Debug, PartialEq)]
pub enum BridgeError {
    /// The call supplied `given` arguments to a method that takes `arity`.
    ArityMismatch { arity: usize, given: usize },
    /// The argument at `position` carried the tag `found`, which does not
    /// convert to the parameter's type `expected`.
    TypeMismatch { position: usize, expected: NativeType, found: Tag },
    /// The native type `owner` has no member called `member`.
    NoSuchMember { owner: String, member: String },
    /// The native method itself failed.
    Native(NativeFailure),
}

/// The mathematical content of a [`BridgeError`].
pub ghost enum ErrorView {
    ArityMismatch { arity: usize, given: usize },
    TypeMismatch { position: usize, expected: NativeType, found: Tag },
    NoSuchMember { owner: Seq<char>, member: Seq<char> },
    Native { message: Seq<char> },
}

impl View for BridgeError {
    type V = ErrorView;

    open spec fn view(&self) -> ErrorView {
        match self {
            BridgeError::ArityMismatch { arity, given } => ErrorView::ArityMismatch {
                arity: *arity,
                given: *given,
            },
            BridgeError::TypeMismatch { position, expected, found } => ErrorView::TypeMismatch {
                position: *position,
                expected: *expected,
                found: *found,
            },
            BridgeError::NoSuchMember { owner, member } => ErrorView::NoSuchMember {
                owner: owner@,
                member: member@,
            },
            BridgeError::Native(failure) => ErrorView::Native { message: failure.message@ },
        }
    }
}

} // verus!

//! Invocation kinds and the library's error taxonomy.

use vstd::prelude::*;

verus! {

/// The three ways a member of an automation object can be invoked.
#[derive(Clone, Copy, Debug, PartialEq, Eq, Structural)]
pub enum InvokeKind {
    PropertyGet,
    PropertyPut,
    Method,
}

/// What a fallible library operation reports: every failure names the
/// member or the conversion that failed, so a caller receives a causal
/// chain rather than a bare code.
#[derive(Debug)]
pub enum Error {
    /// The target knows no member of this name.
    MemberNotFound(String),
    /// The target refused or failed the invocation of the named member.
    InvokeFailed(String, InvokeKind),
    /// A dynamic value held tag `found` where tag `wanted` was requested.
    Conversion { found: u16, wanted: u16 },
}

/// The ghost value of an `Error`: member names as character sequences.
pub enum ErrorV {
    MemberNotFound(Seq<char>),
    InvokeFailed(Seq<char>, InvokeKind),
    Conversion { found: u16, wanted: u16 },
}

impl View for Error {
    type V = ErrorV;

    open spec fn view(&self) -> ErrorV {
        match self {
            Error::MemberNotFound(n) => ErrorV::MemberNotFound(n@),
            Error::InvokeFailed(n, k) => ErrorV::InvokeFailed(n@, *k),
            Error::Conversion { found, wanted } => ErrorV::Conversion {
                found: *found,
                wanted: *wanted,
            },
        }
    }
}

/// A fallible result seen at the ghost level, errors replaced by their views.
pub open spec fn res_view<A>(r: Result<A, Error>) -> Result<A, ErrorV> {
    match r {
        Ok(a) => Ok(a),
        Err(e) => Err(e@),
    }
}

} // verus!

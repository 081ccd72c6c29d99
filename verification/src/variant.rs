//! Tagged dynamic values and their checked conversions to native types.
//!
//! A `Variant` holds one of the supported native types (or records an
//! unsupported tag). Its tag is fixed at construction; conversion is
//! read-only and fails with a conversion error when the tag does not
//! match the requested native type.

use vstd::prelude::*;

use crate::error::{res_view, Error, ErrorV};
use crate::proxy::IDispatchWrapper;

verus! {

/// Tag of an empty (void) value.
pub const VT_EMPTY: u16 = 0;
/// Tag of a 32-bit signed integer.
pub const VT_I4: u16 = 3;
/// Tag of a text value.
pub const VT_BSTR: u16 = 8;
/// Tag of an automation-handle value.
pub const VT_DISPATCH: u16 = 9;
/// Tag of a boolean value.
pub const VT_BOOL: u16 = 11;

/// The ghost value of a `Variant`: text as a sequence of characters.
#[verifier::ext_equal]
pub enum VariantV {
    Empty,
    Bool(bool),
    Int(i32),
    Text(Seq<char>),
    Dispatch(u64),
    Unsupported(u16),
}

/// A dynamic value: a tagged union over the native types that an
/// automation target produces and consumes. `Dispatch` carries the
/// identifier of an automation handle; `Unsupported` records the raw
/// tag of a value outside the supported set.
#[derive(Debug)]
pub enum Variant {
    Empty,
    Bool(bool),
    Int(i32),
    Text(String),
    Dispatch(u64),
    Unsupported(u16),
}

impl View for Variant {
    type V = VariantV;

    open spec fn view(&self) -> VariantV {
        match self {
            Variant::Empty => VariantV::Empty,
            Variant::Bool(b) => VariantV::Bool(*b),
            Variant::Int(i) => VariantV::Int(*i),
            Variant::Text(s) => VariantV::Text(s@),
            Variant::Dispatch(h) => VariantV::Dispatch(*h),
            Variant::Unsupported(t) => VariantV::Unsupported(*t),
        }
    }
}

/// The tag of a dynamic value.
pub open spec fn spec_vt(v: VariantV) -> u16 {
    match v {
        VariantV::Empty => VT_EMPTY,
        VariantV::Bool(_) => VT_BOOL,
        VariantV::Int(_) => VT_I4,
        VariantV::Text(_) => VT_BSTR,
        VariantV::Dispatch(_) => VT_DISPATCH,
        VariantV::Unsupported(t) => t,
    }
}

/// Checked conversion to a boolean: succeeds exactly on the matching tag.
pub open spec fn spec_as_bool(v: VariantV) -> Result<bool, ErrorV> {
    match v {
        VariantV::Bool(b) => Ok(b),
        _ => Err(ErrorV::Conversion { found: spec_vt(v), wanted: VT_BOOL }),
    }
}

/// Checked conversion to a 32-bit integer: succeeds exactly on the matching tag.
pub open spec fn spec_as_int(v: VariantV) -> Result<i32, ErrorV> {
    match v {
        VariantV::Int(i) => Ok(i),
        _ => Err(ErrorV::Conversion { found: spec_vt(v), wanted: VT_I4 }),
    }
}

/// Checked conversion to text: succeeds exactly on the matching tag.
pub open spec fn spec_as_text(v: VariantV) -> Result<Seq<char>, ErrorV> {
    match v {
        VariantV::Text(s) => Ok(s),
        _ => Err(ErrorV::Conversion { found: spec_vt(v), wanted: VT_BSTR }),
    }
}

/// Checked conversion to an automation handle: succeeds exactly on the matching tag.
pub open spec fn spec_as_dispatch(v: VariantV) -> Result<u64, ErrorV> {
    match v {
        VariantV::Dispatch(h) => Ok(h),
        _ => Err(ErrorV::Conversion { found: spec_vt(v), wanted: VT_DISPATCH }),
    }
}

impl Variant {
    /// The raw tag of this value.
    pub fn vt(&self) -> (r: u16)
        ensures
            r == spec_vt(self@),
    {
        match self {
            Variant::Empty => VT_EMPTY,
            Variant::Bool(_) => VT_BOOL,
            Variant::Int(_) => VT_I4,
            Variant::Text(_) => VT_BSTR,
            Variant::Dispatch(_) => VT_DISPATCH,
            Variant::Unsupported(t) => *t,
        }
    }

    /// Checked conversion to a boolean.
    pub fn as_bool(&self) -> (r: Result<bool, Error>)
        ensures
            res_view(r) == spec_as_bool(self@),
    {
        match self {
            Variant::Bool(b) => Ok(*b),
            _ => Err(Error::Conversion { found: self.vt(), wanted: VT_BOOL }),
        }
    }

    /// Checked conversion to a 32-bit integer.
    pub fn as_int(&self) -> (r: Result<i32, Error>)
        ensures
            res_view(r) == spec_as_int(self@),
    {
        match self {
            Variant::Int(i) => Ok(*i),
            _ => Err(Error::Conversion { found: self.vt(), wanted: VT_I4 }),
        }
    }

    /// Checked conversion to text, handing out a copy of the held string.
    pub fn string(&self) -> (r: Result<String, Error>)
        ensures
            match spec_as_text(self@) {
                Ok(t) => r matches Ok(s) && s@ == t,
                Err(e) => r matches Err(er) && er@ == e,
            },
    {
        match self {
            Variant::Text(s) => Ok(s.clone()),
            _ => Err(Error::Conversion { found: self.vt(), wanted: VT_BSTR }),
        }
    }

    /// Checked conversion to a proxy around the held automation handle.
    pub fn idispatch(&self) -> (r: Result<IDispatchWrapper, Error>)
        ensures
            (match r {
                Ok(w) => Ok::<u64, ErrorV>(w.0),
                Err(e) => Err(e@),
            }) == spec_as_dispatch(self@),
    {
        match self {
            Variant::Dispatch(h) => Ok(IDispatchWrapper(*h)),
            _ => Err(Error::Conversion { found: self.vt(), wanted: VT_DISPATCH }),
        }
    }

    /// Whether this value holds a 32-bit integer.
    pub fn is_int(&self) -> (r: bool)
        ensures
            r == (self@ is Int),
    {
        match self {
            Variant::Int(_) => true,
            _ => false,
        }
    }

    /// A text value built from a string slice.
    pub fn text(s: &str) -> (v: Variant)
        ensures
            v@ == VariantV::Text(s@),
    {
        Variant::Text(s.to_owned())
    }
}

impl Clone for Variant {
    /// A clone holds the same tag and the same value.
    fn clone(&self) -> (r: Self)
        ensures
            r == *self,
    {
        match self {
            Variant::Empty => Variant::Empty,
            Variant::Bool(b) => Variant::Bool(*b),
            Variant::Int(i) => Variant::Int(*i),
            Variant::Text(s) => Variant::Text(s.clone()),
            Variant::Dispatch(h) => Variant::Dispatch(*h),
            Variant::Unsupported(t) => Variant::Unsupported(*t),
        }
    }
}

impl From<bool> for Variant {
    fn from(b: bool) -> (v: Variant) {
        Variant::Bool(b)
    }
}

impl vstd::std_specs::convert::FromSpecImpl<bool> for Variant {
    open spec fn obeys_from_spec() -> bool {
        true
    }

    open spec fn from_spec(b: bool) -> Variant {
        Variant::Bool(b)
    }
}

impl From<i32> for Variant {
    fn from(i: i32) -> (v: Variant) {
        Variant::Int(i)
    }
}

impl vstd::std_specs::convert::FromSpecImpl<i32> for Variant {
    open spec fn obeys_from_spec() -> bool {
        true
    }

    open spec fn from_spec(i: i32) -> Variant {
        Variant::Int(i)
    }
}

/// Law: converting a dynamic value to the native type matching its tag
/// succeeds and hands back exactly the held value.
pub proof fn lemma_conversion_round_trip(b: bool, i: i32, s: Seq<char>, h: u64)
    ensures
        spec_as_bool(VariantV::Bool(b)) == Ok::<bool, ErrorV>(b),
        spec_as_int(VariantV::Int(i)) == Ok::<i32, ErrorV>(i),
        spec_as_text(VariantV::Text(s)) == Ok::<Seq<char>, ErrorV>(s),
        spec_as_dispatch(VariantV::Dispatch(h)) == Ok::<u64, ErrorV>(h),
{
}

/// Law: converting a dynamic value to a native type that does not match
/// its tag fails with a conversion error naming the two tags.
pub proof fn lemma_conversion_mismatch(v: VariantV)
    ensures
        !(v is Bool) ==> spec_as_bool(v) == Err::<bool, ErrorV>(
            ErrorV::Conversion { found: spec_vt(v), wanted: VT_BOOL },
        ),
        !(v is Int) ==> spec_as_int(v) == Err::<i32, ErrorV>(
            ErrorV::Conversion { found: spec_vt(v), wanted: VT_I4 },
        ),
        !(v is Text) ==> spec_as_text(v) == Err::<Seq<char>, ErrorV>(
            ErrorV::Conversion { found: spec_vt(v), wanted: VT_BSTR },
        ),
        !(v is Dispatch) ==> spec_as_dispatch(v) == Err::<u64, ErrorV>(
            ErrorV::Conversion { found: spec_vt(v), wanted: VT_DISPATCH },
        ),
{
}

} // verus!

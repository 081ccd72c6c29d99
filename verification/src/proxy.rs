//! The dynamic object proxy: name resolution, argument packing and
//! late-bound invocation against any automation target.
//!
//! A target is anything that can resolve a member name to an id and
//! perform an invocation: the capability is the `DynamicTarget` trait,
//! so that the transport can be an in-memory server as well as a remote
//! automation facility.

use vstd::prelude::*;

use crate::error::{res_view, Error, ErrorV, InvokeKind};
use crate::params::{pack_dispparams, packed_params, views_of, DispParams, DispParamsV};
use crate::variant::{spec_as_bool, spec_as_int, spec_as_text, Variant, VariantV};

verus! {

/// The ghost record of one invocation as a target observed it.
#[verifier::ext_equal]
pub struct LogEntryV {
    pub handle: u64,
    pub member: u32,
    pub kind: InvokeKind,
    pub params: DispParamsV,
}

/// One invocation as a target observed it: the handle it was aimed at,
/// the resolved member id, the invocation kind and the packed arguments.
#[derive(Debug)]
pub struct LogEntry {
    pub handle: u64,
    pub member: u32,
    pub kind: InvokeKind,
    pub params: DispParams,
}

impl View for LogEntry {
    type V = LogEntryV;

    open spec fn view(&self) -> LogEntryV {
        LogEntryV {
            handle: self.handle,
            member: self.member,
            kind: self.kind,
            params: self.params@,
        }
    }
}

/// An untagged invocation failure reported by a target. The proxy turns
/// it into an error naming the member and the invocation kind.
#[derive(Clone, Copy, Debug, PartialEq, Eq, Structural)]
pub struct Fault;

/// A target's answer, at ghost level.
pub open spec fn dyn_res_view(r: Result<Variant, Fault>) -> Result<VariantV, Fault> {
    match r {
        Ok(v) => Ok(v@),
        Err(f) => Err(f),
    }
}

/// The capability the proxy drives: resolve a member name to an id, and
/// invoke a resolved member. A target's visible behaviour is fixed by a
/// ghost model: every invocation is appended to its log, steps the model
/// by `next`, and is answered as `response` says.
pub trait DynamicTarget: Sized {
    /// The ghost model of the target's member state.
    type ModelV;

    /// The current ghost model.
    spec fn model(&self) -> Self::ModelV;

    /// Every invocation the target has observed, in order.
    spec fn log(&self) -> Seq<LogEntryV>;

    /// The target's member-name table.
    spec fn member_id(name: Seq<char>) -> Option<u32>;

    /// The answer the target gives to an invocation in a given state.
    spec fn response(
        m: Self::ModelV,
        handle: u64,
        member: u32,
        kind: InvokeKind,
        p: DispParamsV,
    ) -> Result<VariantV, Fault>;

    /// The state the target moves to on an invocation.
    spec fn next(
        m: Self::ModelV,
        handle: u64,
        member: u32,
        kind: InvokeKind,
        p: DispParamsV,
    ) -> Self::ModelV;

    /// Resolves a member name against the target's name table.
    fn resolve(&self, name: &str) -> (r: Option<u32>)
        ensures
            r == Self::member_id(name@),
    ;

    /// Performs one invocation: the target observes it, steps its model
    /// and answers it.
    fn invoke_member(
        &mut self,
        handle: u64,
        member: u32,
        kind: InvokeKind,
        params: DispParams,
    ) -> (r: Result<Variant, Fault>)
        ensures
            final(self).log() == old(self).log().push(
                (LogEntryV { handle, member, kind, params: params@ }),
            ),
            final(self).model() == Self::next(old(self).model(), handle, member, kind, params@),
            dyn_res_view(r) == Self::response(old(self).model(), handle, member, kind, params@),
    ;
}

/// Everything an invocation through the proxy does to a target and
/// reports back: an unknown name leaves the target untouched and yields
/// a member-resolution error; a known one is packed, observed by the
/// target exactly once, stepped and answered, a target fault surfacing
/// as an invocation error naming the member and the kind.
pub open spec fn invoke_post<T: DynamicTarget>(
    pre: T,
    post: T,
    handle: u64,
    kind: InvokeKind,
    name: Seq<char>,
    args: Seq<VariantV>,
    r: Result<Variant, Error>,
) -> bool {
    let p = packed_params(kind, args);
    &&& (T::member_id(name) is None ==> {
        &&& post == pre
        &&& res_view(r) == Err::<Variant, ErrorV>(ErrorV::MemberNotFound(name))
    })
    &&& (T::member_id(name) matches Some(id) ==> {
        &&& post.log() == pre.log().push(
            (LogEntryV { handle, member: id, kind, params: p }),
        )
        &&& post.model() == T::next(pre.model(), handle, id, kind, p)
        &&& (match T::response(pre.model(), handle, id, kind, p) {
            Ok(v) => r matches Ok(rv) && rv@ == v,
            Err(f) => res_view(r) == Err::<Variant, ErrorV>(ErrorV::InvokeFailed(name, kind)),
        })
    })
}

/// What a typed property read reports, given the target's answer to the
/// underlying property-get and the requested conversion; `rv` is the
/// ghost value of what the read returned.
pub open spec fn getter_post<T: DynamicTarget, AV>(
    pre: T,
    post: T,
    handle: u64,
    name: Seq<char>,
    conv: spec_fn(VariantV) -> Result<AV, ErrorV>,
    rv: Result<AV, ErrorV>,
) -> bool {
    let p = packed_params(InvokeKind::PropertyGet, Seq::empty());
    &&& (T::member_id(name) is None ==> {
        &&& post == pre
        &&& rv == Err::<AV, ErrorV>(ErrorV::MemberNotFound(name))
    })
    &&& (T::member_id(name) matches Some(id) ==> {
        &&& post.log() == pre.log().push(
            (LogEntryV { handle, member: id, kind: InvokeKind::PropertyGet, params: p }),
        )
        &&& post.model() == T::next(pre.model(), handle, id, InvokeKind::PropertyGet, p)
        &&& (match T::response(pre.model(), handle, id, InvokeKind::PropertyGet, p) {
            Ok(v) => rv == conv(v),
            Err(f) => rv == Err::<AV, ErrorV>(
                ErrorV::InvokeFailed(name, InvokeKind::PropertyGet),
            ),
        })
    })
}

/// A dynamic object proxy: wraps the identifier of an automation handle
/// and turns "name + arguments" into late-bound invocations against a
/// target, reversing the argument order for transmission and marking the
/// put argument of a property assignment.
#[derive(Clone, Copy, Debug, PartialEq, Eq, Structural)]
pub struct IDispatchWrapper(pub u64);

impl IDispatchWrapper {
    /// Resolves `name` on the target, packs `args` and invokes the member.
    pub fn invoke<T: DynamicTarget>(
        &self,
        target: &mut T,
        flags: InvokeKind,
        name: &str,
        args: Vec<Variant>,
    ) -> (r: Result<Variant, Error>)
        ensures
            invoke_post(*old(target), *final(target), self.0, flags, name@, views_of(args@), r),
    {
        match target.resolve(name) {
            None => Err(Error::MemberNotFound(name.to_owned())),
            Some(id) => {
                let params = pack_dispparams(flags, args);
                match target.invoke_member(self.0, id, flags, params) {
                    Ok(v) => Ok(v),
                    Err(_) => Err(Error::InvokeFailed(name.to_owned(), flags)),
                }
            },
        }
    }

    /// Reads a property: a property-get with no arguments.
    pub fn get<T: DynamicTarget>(&self, target: &mut T, name: &str) -> (r: Result<
        Variant,
        Error,
    >)
        ensures
            invoke_post(
                *old(target),
                *final(target),
                self.0,
                InvokeKind::PropertyGet,
                name@,
                Seq::empty(),
                r,
            ),
    {
        let r = self.invoke(target, InvokeKind::PropertyGet, name, Vec::new());
        proof {
            assert(views_of(Seq::<Variant>::empty()) =~= Seq::<VariantV>::empty());
        }
        r
    }

    /// Writes a property: a property-put whose arguments carry the value.
    pub fn put<T: DynamicTarget>(
        &self,
        target: &mut T,
        name: &str,
        args: Vec<Variant>,
    ) -> (r: Result<Variant, Error>)
        ensures
            invoke_post(
                *old(target),
                *final(target),
                self.0,
                InvokeKind::PropertyPut,
                name@,
                views_of(args@),
                r,
            ),
    {
        self.invoke(target, InvokeKind::PropertyPut, name, args)
    }

    /// Calls a method with positional arguments.
    pub fn call<T: DynamicTarget>(
        &self,
        target: &mut T,
        name: &str,
        args: Vec<Variant>,
    ) -> (r: Result<Variant, Error>)
        ensures
            invoke_post(
                *old(target),
                *final(target),
                self.0,
                InvokeKind::Method,
                name@,
                views_of(args@),
                r,
            ),
    {
        self.invoke(target, InvokeKind::Method, name, args)
    }

    /// Reads a property and converts the result to a 32-bit integer.
    pub fn as_int<T: DynamicTarget>(&self, target: &mut T, name: &str) -> (r: Result<
        i32,
        Error,
    >)
        ensures
            getter_post(
                *old(target),
                *final(target),
                self.0,
                name@,
                (|v: VariantV| spec_as_int(v)),
                res_view(r),
            ),
    {
        match self.get(target, name) {
            Ok(v) => v.as_int(),
            Err(e) => Err(e),
        }
    }

    /// Reads a property and converts the result to a boolean.
    pub fn as_bool<T: DynamicTarget>(&self, target: &mut T, name: &str) -> (r: Result<
        bool,
        Error,
    >)
        ensures
            getter_post(
                *old(target),
                *final(target),
                self.0,
                name@,
                (|v: VariantV| spec_as_bool(v)),
                res_view(r),
            ),
    {
        match self.get(target, name) {
            Ok(v) => v.as_bool(),
            Err(e) => Err(e),
        }
    }

    /// Reads a property and converts the result to text.
    pub fn string<T: DynamicTarget>(&self, target: &mut T, name: &str) -> (r: Result<
        String,
        Error,
    >)
        ensures
            getter_post(
                *old(target),
                *final(target),
                self.0,
                name@,
                (|v: VariantV| spec_as_text(v)),
                (match r {
                    Ok(s) => Ok::<Seq<char>, ErrorV>(s@),
                    Err(e) => Err(e@),
                }),
            ),
    {
        match self.get(target, name) {
            Ok(v) => v.string(),
            Err(e) => Err(e),
        }
    }
}

/// Law: an unknown member name, whatever the invocation kind, yields a
/// member-resolution error naming it and leaves the target unchanged.
pub proof fn lemma_unknown_member<T: DynamicTarget>(
    pre: T,
    post: T,
    handle: u64,
    kind: InvokeKind,
    name: Seq<char>,
    args: Seq<VariantV>,
    r: Result<Variant, Error>,
)
    requires
        invoke_post(pre, post, handle, kind, name, args, r),
        T::member_id(name) is None,
    ensures
        post == pre,
        r matches Err(e) && e@ == ErrorV::MemberNotFound(name),
{
    match r {
        Ok(_) => {
            assert(false);
        },
        Err(_) => {},
    }
}

} // verus!

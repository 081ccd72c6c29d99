//! Packing of positional arguments for transmission to an automation target.
//!
//! The underlying marshaling convention expects arguments in reverse
//! declaration order, so packing reverses the caller-supplied list.
//! A property-put with at least one argument additionally marks the
//! distinguished "put" argument through a reserved named-argument id.

use vstd::prelude::*;

use crate::error::InvokeKind;
use crate::variant::{Variant, VariantV};

verus! {

/// The named-argument id reserved for the value of a property assignment.
pub const DISPID_PROPERTYPUT: i32 = -3;

/// The ghost value of a packed argument list.
#[verifier::ext_equal]
pub struct DispParamsV {
    /// Positional arguments in wire order.
    pub args: Seq<VariantV>,
    /// Named-argument ids; holds exactly `DISPID_PROPERTYPUT` for a
    /// property-put with arguments, and nothing otherwise.
    pub named_dispids: Seq<i32>,
}

/// A packed argument list, ready for transmission: positional arguments
/// in wire order together with the named-argument ids.
#[derive(Debug)]
pub struct DispParams {
    pub args: Vec<Variant>,
    pub named_dispids: Vec<i32>,
}

/// The ghost values of a sequence of dynamic values.
pub open spec fn views_of(args: Seq<Variant>) -> Seq<VariantV> {
    args.map_values(|v: Variant| v@)
}

impl View for DispParams {
    type V = DispParamsV;

    open spec fn view(&self) -> DispParamsV {
        DispParamsV { args: views_of(self.args@), named_dispids: self.named_dispids@ }
    }
}

/// What packing produces from an invocation kind and the caller-supplied
/// arguments: the arguments reversed, and the put marking exactly when the
/// kind is a property-put with at least one argument.
pub open spec fn packed_params(kind: InvokeKind, args: Seq<VariantV>) -> DispParamsV {
    DispParamsV {
        args: args.reverse(),
        named_dispids: if kind is PropertyPut && args.len() > 0 {
            seq![DISPID_PROPERTYPUT]
        } else {
            Seq::empty()
        },
    }
}

/// Packs caller-supplied arguments for transmission: reverses their order
/// and, for a property-put with arguments, marks the distinguished put
/// argument.
pub fn pack_dispparams(kind: InvokeKind, args: Vec<Variant>) -> (p: DispParams)
    ensures
        p@ == packed_params(kind, views_of(args@)),
{
    let ghost orig: Seq<Variant> = args@;
    let mut rest = args;
    let mut rev: Vec<Variant> = Vec::new();
    while rest.len() > 0
        invariant
            rest@.len() + rev@.len() == orig.len(),
            rest@ == orig.subrange(0, rest@.len() as int),
            forall|j: int|
                0 <= j < rev@.len() ==> rev@[j] == orig[orig.len() - 1 - j],
        decreases rest.len(),
    {
        let ghost before: Seq<Variant> = rest@;
        let last = rest.pop().unwrap();
        proof {
            assert(last == orig[rest@.len() as int]);
            assert(rest@ == before.subrange(0, before.len() - 1));
            assert(rest@ =~= orig.subrange(0, rest@.len() as int));
        }
        rev.push(last);
    }
    let had_args = rev.len() > 0;
    let mut named_dispids: Vec<i32> = Vec::new();
    if kind == InvokeKind::PropertyPut && had_args {
        named_dispids.push(DISPID_PROPERTYPUT);
    }
    let p = DispParams { args: rev, named_dispids };
    proof {
        assert(views_of(p.args@) =~= views_of(orig).reverse()) by {
            assert forall|j: int| 0 <= j < p.args@.len() implies views_of(p.args@)[j]
                == views_of(orig).reverse()[j] by {
                assert(p.args@[j] == orig[orig.len() - 1 - j]);
            }
        }
        if kind is PropertyPut && views_of(orig).len() > 0 {
            assert(p@.named_dispids =~= seq![DISPID_PROPERTYPUT]);
        } else {
            assert(p@.named_dispids =~= Seq::<i32>::empty());
        }
        assert(p@ =~= packed_params(kind, views_of(orig)));
    }
    p
}

/// Law: packing presents the arguments to the invocation in reverse of the
/// order the caller supplied them.
pub proof fn lemma_pack_reverses(kind: InvokeKind, args: Seq<VariantV>)
    ensures
        packed_params(kind, args).args.len() == args.len(),
        forall|i: int|
            0 <= i < args.len() ==> packed_params(kind, args).args[i] == args[args.len() - 1
                - i],
{
}

/// Law: a property-put with a non-empty argument list marks exactly one
/// argument, through the reserved put id; a property-get or a method call
/// never marks any.
pub proof fn lemma_put_marking(kind: InvokeKind, args: Seq<VariantV>)
    ensures
        kind is PropertyPut && args.len() > 0 ==> packed_params(kind, args).named_dispids
            =~= seq![DISPID_PROPERTYPUT],
        !(kind is PropertyPut && args.len() > 0) ==> packed_params(
            kind,
            args,
        ).named_dispids.len() == 0,
{
}

} // verus!

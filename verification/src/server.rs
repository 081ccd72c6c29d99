//! An in-memory automation server: a verified stand-in for the live
//! automation transport.
//!
//! The server exposes the member table that the mail scenario needs: an
//! application object (handle `0`) with a `CreateItem` method, and mail
//! items with the writable properties `To`, `Subject`, `Body` and a
//! `Send` method. It records every invocation it observes, so that a
//! caller can check exactly what reached it.

use vstd::prelude::*;

use crate::error::InvokeKind;
use crate::params::{packed_params, DispParams, DispParamsV, DISPID_PROPERTYPUT};
use crate::proxy::{dyn_res_view, DynamicTarget, Fault, LogEntry, LogEntryV};
use crate::variant::{Variant, VariantV};

verus! {

/// Member id of the application's item-creation method.
pub const MEMBER_CREATE_ITEM: u32 = 1;
/// Member id of a mail item's recipient property.
pub const MEMBER_TO: u32 = 2;
/// Member id of a mail item's subject property.
pub const MEMBER_SUBJECT: u32 = 3;
/// Member id of a mail item's body property.
pub const MEMBER_BODY: u32 = 4;
/// Member id of a mail item's send method.
pub const MEMBER_SEND: u32 = 5;

/// The handle of the application object itself.
pub const APPLICATION_HANDLE: u64 = 0;

/// The ghost value of a mail item.
#[verifier::ext_equal]
pub struct MailItemV {
    pub to: VariantV,
    pub subject: VariantV,
    pub body: VariantV,
    pub sent: bool,
}

/// One mail item held by the server: three writable properties, initially
/// empty, and whether the item has been sent.
#[derive(Debug)]
pub struct MailItem {
    pub to: Variant,
    pub subject: Variant,
    pub body: Variant,
    pub sent: bool,
}

impl View for MailItem {
    type V = MailItemV;

    open spec fn view(&self) -> MailItemV {
        MailItemV { to: self.to@, subject: self.subject@, body: self.body@, sent: self.sent }
    }
}

/// The server's member-name table.
pub open spec fn spec_member_id(name: Seq<char>) -> Option<u32> {
    if name == "CreateItem"@ {
        Some(MEMBER_CREATE_ITEM)
    } else if name == "To"@ {
        Some(MEMBER_TO)
    } else if name == "Subject"@ {
        Some(MEMBER_SUBJECT)
    } else if name == "Body"@ {
        Some(MEMBER_BODY)
    } else if name == "Send"@ {
        Some(MEMBER_SEND)
    } else {
        None
    }
}

/// Whether a member id names a writable property of a mail item.
pub open spec fn is_item_property(member: u32) -> bool {
    member == MEMBER_TO || member == MEMBER_SUBJECT || member == MEMBER_BODY
}

/// The stored value of a mail item's property.
pub open spec fn item_property(it: MailItemV, member: u32) -> VariantV {
    if member == MEMBER_TO {
        it.to
    } else if member == MEMBER_SUBJECT {
        it.subject
    } else {
        it.body
    }
}

/// The mail item with one property replaced.
pub open spec fn with_property(it: MailItemV, member: u32, v: VariantV) -> MailItemV {
    if member == MEMBER_TO {
        MailItemV { to: v, ..it }
    } else if member == MEMBER_SUBJECT {
        MailItemV { subject: v, ..it }
    } else {
        MailItemV { body: v, ..it }
    }
}

/// A freshly created mail item: all properties empty, not sent.
pub open spec fn fresh_item() -> MailItemV {
    MailItemV {
        to: VariantV::Empty,
        subject: VariantV::Empty,
        body: VariantV::Empty,
        sent: false,
    }
}

/// A packed argument list without arguments, as a property-get or an
/// argumentless method call carries.
pub open spec fn no_args(p: DispParamsV) -> bool {
    p.args.len() == 0 && p.named_dispids.len() == 0
}

/// A packed property-put argument list: one positional argument, marked
/// as the distinguished put argument.
pub open spec fn is_put_params(p: DispParamsV) -> bool {
    p.args.len() == 1 && p.named_dispids.len() == 1 && p.named_dispids[0] == DISPID_PROPERTYPUT
}

/// Which invocations the server accepts in a given member state: creating
/// an item on the application with one integer type code, and reading,
/// writing or sending an existing item with fitting arguments.
pub open spec fn server_accepts(
    items: Seq<MailItemV>,
    handle: u64,
    member: u32,
    kind: InvokeKind,
    p: DispParamsV,
) -> bool {
    if handle == APPLICATION_HANDLE {
        &&& member == MEMBER_CREATE_ITEM
        &&& kind is Method
        &&& p.args.len() == 1
        &&& p.args[0] is Int
        &&& p.named_dispids.len() == 0
        &&& items.len() < usize::MAX
    } else if 1 <= handle && handle <= items.len() {
        if member == MEMBER_SEND {
            kind is Method && no_args(p)
        } else if is_item_property(member) {
            match kind {
                InvokeKind::PropertyGet => no_args(p),
                InvokeKind::PropertyPut => is_put_params(p),
                InvokeKind::Method => false,
            }
        } else {
            false
        }
    } else {
        false
    }
}

/// The value an accepted invocation returns: the new item's handle for a
/// creation, the stored value for a property read, empty otherwise.
pub open spec fn server_result(
    items: Seq<MailItemV>,
    handle: u64,
    member: u32,
    kind: InvokeKind,
    p: DispParamsV,
) -> VariantV {
    if handle == APPLICATION_HANDLE {
        VariantV::Dispatch((items.len() + 1) as u64)
    } else if kind is PropertyGet {
        item_property(items[handle - 1], member)
    } else {
        VariantV::Empty
    }
}

/// The member state after an invocation: an accepted creation appends a
/// fresh item, an accepted put replaces the property, an accepted send
/// marks the item sent; everything else leaves the state unchanged.
pub open spec fn server_next(
    items: Seq<MailItemV>,
    handle: u64,
    member: u32,
    kind: InvokeKind,
    p: DispParamsV,
) -> Seq<MailItemV> {
    if !server_accepts(items, handle, member, kind, p) {
        items
    } else if handle == APPLICATION_HANDLE {
        items.push(fresh_item())
    } else if kind is PropertyPut {
        items.update(handle - 1, with_property(items[handle - 1], member, p.args[0]))
    } else if member == MEMBER_SEND {
        items.update(handle - 1, (MailItemV { sent: true, ..items[handle - 1] }))
    } else {
        items
    }
}

/// The server's answer: the result of an accepted invocation, a fault
/// otherwise.
pub open spec fn server_response(
    items: Seq<MailItemV>,
    handle: u64,
    member: u32,
    kind: InvokeKind,
    p: DispParamsV,
) -> Result<VariantV, Fault> {
    if server_accepts(items, handle, member, kind, p) {
        Ok(server_result(items, handle, member, kind, p))
    } else {
        Err(Fault)
    }
}

/// Whether two strings hold the same characters.
fn str_eq(a: &str, b: &str) -> (r: bool)
    ensures
        r == (a@ == b@),
{
    let sa: String = a.to_owned();
    let sb: String = b.to_owned();
    sa == sb
}

/// The in-memory automation server. Handle `0` is the application object;
/// handle `i >= 1` is the `i`-th created mail item. Every invocation that
/// reaches the server is recorded in `entries`.
#[derive(Debug)]
pub struct FakeServer {
    pub items: Vec<MailItem>,
    pub entries: Vec<LogEntry>,
}

impl FakeServer {
    /// The ghost values of the held mail items.
    pub open spec fn items_v(self) -> Seq<MailItemV> {
        self.items@.map_values(|m: MailItem| m@)
    }

    /// The ghost record of the observed invocations.
    pub open spec fn log_v(self) -> Seq<LogEntryV> {
        self.entries@.map_values(|e: LogEntry| e@)
    }

    /// A fresh server: no items, nothing observed yet.
    pub fn new() -> (s: FakeServer)
        ensures
            s.items_v() == Seq::<MailItemV>::empty(),
            s.log_v() == Seq::<LogEntryV>::empty(),
    {
        let s = FakeServer { items: Vec::new(), entries: Vec::new() };
        proof {
            assert(s.items_v() =~= Seq::<MailItemV>::empty());
            assert(s.log_v() =~= Seq::<LogEntryV>::empty());
        }
        s
    }
}

impl DynamicTarget for FakeServer {
    type ModelV = Seq<MailItemV>;

    open spec fn model(&self) -> Seq<MailItemV> {
        self.items_v()
    }

    open spec fn log(&self) -> Seq<LogEntryV> {
        self.log_v()
    }

    open spec fn member_id(name: Seq<char>) -> Option<u32> {
        spec_member_id(name)
    }

    open spec fn response(
        m: Seq<MailItemV>,
        handle: u64,
        member: u32,
        kind: InvokeKind,
        p: DispParamsV,
    ) -> Result<VariantV, Fault> {
        server_response(m, handle, member, kind, p)
    }

    open spec fn next(
        m: Seq<MailItemV>,
        handle: u64,
        member: u32,
        kind: InvokeKind,
        p: DispParamsV,
    ) -> Seq<MailItemV> {
        server_next(m, handle, member, kind, p)
    }

    fn resolve(&self, name: &str) -> (r: Option<u32>) {
        if str_eq(name, "CreateItem") {
            Some(MEMBER_CREATE_ITEM)
        } else if str_eq(name, "To") {
            Some(MEMBER_TO)
        } else if str_eq(name, "Subject") {
            Some(MEMBER_SUBJECT)
        } else if str_eq(name, "Body") {
            Some(MEMBER_BODY)
        } else if str_eq(name, "Send") {
            Some(MEMBER_SEND)
        } else {
            None
        }
    }

    fn invoke_member(
        &mut self,
        handle: u64,
        member: u32,
        kind: InvokeKind,
        params: DispParams,
    ) -> (r: Result<Variant, Fault>) {
        let ghost pre = *self;
        let r: Result<Variant, Fault>;
        if handle == APPLICATION_HANDLE {
            let accepted = member == MEMBER_CREATE_ITEM && kind == InvokeKind::Method
                && params.args.len() == 1 && params.args[0].is_int()
                && params.named_dispids.len() == 0 && self.items.len() < usize::MAX;
            if accepted {
                self.items.push(
                    MailItem {
                        to: Variant::Empty,
                        subject: Variant::Empty,
                        body: Variant::Empty,
                        sent: false,
                    },
                );
                r = Ok(Variant::Dispatch(self.items.len() as u64));
            } else {
                r = Err(Fault);
            }
        } else if 1 <= handle && handle <= self.items.len() as u64 {
            let idx = (handle - 1) as usize;
            if member == MEMBER_SEND && kind == InvokeKind::Method && params.args.len() == 0
                && params.named_dispids.len() == 0 {
                let to2 = self.items[idx].to.clone();
                let subject2 = self.items[idx].subject.clone();
                let body2 = self.items[idx].body.clone();
                self.items.set(
                    idx,
                    MailItem { to: to2, subject: subject2, body: body2, sent: true },
                );
                r = Ok(Variant::Empty);
            } else if member == MEMBER_TO || member == MEMBER_SUBJECT || member == MEMBER_BODY {
                if kind == InvokeKind::PropertyGet && params.args.len() == 0
                    && params.named_dispids.len() == 0 {
                    let v = if member == MEMBER_TO {
                        self.items[idx].to.clone()
                    } else if member == MEMBER_SUBJECT {
                        self.items[idx].subject.clone()
                    } else {
                        self.items[idx].body.clone()
                    };
                    r = Ok(v);
                } else if kind == InvokeKind::PropertyPut && params.args.len() == 1
                    && params.named_dispids.len() == 1
                    && params.named_dispids[0] == DISPID_PROPERTYPUT {
                    let v = params.args[0].clone();
                    let sent2 = self.items[idx].sent;
                    let new_item = if member == MEMBER_TO {
                        let subject2 = self.items[idx].subject.clone();
                        let body2 = self.items[idx].body.clone();
                        MailItem { to: v, subject: subject2, body: body2, sent: sent2 }
                    } else if member == MEMBER_SUBJECT {
                        let to2 = self.items[idx].to.clone();
                        let body2 = self.items[idx].body.clone();
                        MailItem { to: to2, subject: v, body: body2, sent: sent2 }
                    } else {
                        let to2 = self.items[idx].to.clone();
                        let subject2 = self.items[idx].subject.clone();
                        MailItem { to: to2, subject: subject2, body: v, sent: sent2 }
                    };
                    self.items.set(idx, new_item);
                    r = Ok(Variant::Empty);
                } else {
                    r = Err(Fault);
                }
            } else {
                r = Err(Fault);
            }
        } else {
            r = Err(Fault);
        }
        let ghost entry = LogEntryV { handle, member, kind, params: params@ };
        self.entries.push(LogEntry { handle, member, kind, params });
        proof {
            assert(self.log_v() =~~= pre.log_v().push(entry));
            assert(self.items_v() =~~= server_next(pre.items_v(), handle, member, kind, entry.params));
            assert(dyn_res_view(r) == server_response(
                pre.items_v(),
                handle,
                member,
                kind,
                entry.params,
            ));
        }
        r
    }
}

/// Law: writing a property of a mail item and then reading the same
/// property back yields exactly the just-written value.
pub proof fn lemma_put_then_get(items: Seq<MailItemV>, handle: u64, member: u32, v: VariantV)
    requires
        1 <= handle <= items.len(),
        is_item_property(member),
    ensures
        ({
            let put_p = packed_params(InvokeKind::PropertyPut, seq![v]);
            let get_p = packed_params(InvokeKind::PropertyGet, Seq::empty());
            let after = server_next(items, handle, member, InvokeKind::PropertyPut, put_p);
            &&& server_response(items, handle, member, InvokeKind::PropertyPut, put_p)
                == Ok::<VariantV, Fault>(VariantV::Empty)
            &&& server_response(after, handle, member, InvokeKind::PropertyGet, get_p)
                == Ok::<VariantV, Fault>(v)
        }),
{
    let put_p = packed_params(InvokeKind::PropertyPut, seq![v]);
    assert(put_p.args =~= seq![v]);
    let get_p = packed_params(InvokeKind::PropertyGet, Seq::empty());
    assert(get_p.args =~= Seq::<VariantV>::empty());
    let after = server_next(items, handle, member, InvokeKind::PropertyPut, put_p);
    assert(after[handle - 1] == with_property(items[handle - 1], member, v));
}

} // verus!

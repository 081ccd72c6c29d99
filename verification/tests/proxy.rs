use oleproxy::params::DISPID_PROPERTYPUT;
use oleproxy::server::{
    FakeServer, APPLICATION_HANDLE, MEMBER_BODY, MEMBER_CREATE_ITEM, MEMBER_SEND, MEMBER_SUBJECT,
    MEMBER_TO,
};
use oleproxy::{Error, IDispatchWrapper, InvokeKind, Variant};

#[test]
fn end_to_end_mail_scenario() {
    let mut server = FakeServer::new();
    let outlook = IDispatchWrapper(APPLICATION_HANDLE);

    let mail_item = outlook
        .call(&mut server, "CreateItem", vec![Variant::from(0i32)])
        .unwrap();
    let mail = mail_item.idispatch().unwrap();

    mail.put(&mut server, "To", vec![Variant::text("a@b.com")]).unwrap();
    mail.put(&mut server, "Subject", vec![Variant::text("s")]).unwrap();
    mail.put(&mut server, "Body", vec![Variant::text("b")]).unwrap();
    mail.call(&mut server, "Send", vec![]).unwrap();

    // The double observed exactly that sequence of members, kinds and values.
    assert_eq!(server.entries.len(), 5);

    let e = &server.entries[0];
    assert_eq!(e.handle, APPLICATION_HANDLE);
    assert_eq!(e.member, MEMBER_CREATE_ITEM);
    assert_eq!(e.kind, InvokeKind::Method);
    assert_eq!(e.params.args.len(), 1);
    assert_eq!(e.params.args[0].as_int().unwrap(), 0);
    assert!(e.params.named_dispids.is_empty());

    let expected = [
        (MEMBER_TO, "a@b.com"),
        (MEMBER_SUBJECT, "s"),
        (MEMBER_BODY, "b"),
    ];
    for (i, (member, value)) in expected.iter().enumerate() {
        let e = &server.entries[i + 1];
        assert_eq!(e.handle, 1);
        assert_eq!(e.member, *member);
        assert_eq!(e.kind, InvokeKind::PropertyPut);
        assert_eq!(e.params.args.len(), 1);
        assert_eq!(e.params.args[0].string().unwrap(), *value);
        assert_eq!(e.params.named_dispids, vec![DISPID_PROPERTYPUT]);
    }

    let e = &server.entries[4];
    assert_eq!(e.handle, 1);
    assert_eq!(e.member, MEMBER_SEND);
    assert_eq!(e.kind, InvokeKind::Method);
    assert!(e.params.args.is_empty());
    assert!(e.params.named_dispids.is_empty());

    // The item ended up with the written fields and was sent.
    assert_eq!(server.items.len(), 1);
    assert_eq!(server.items[0].to.string().unwrap(), "a@b.com");
    assert_eq!(server.items[0].subject.string().unwrap(), "s");
    assert_eq!(server.items[0].body.string().unwrap(), "b");
    assert!(server.items[0].sent);
}

#[test]
fn put_then_get_returns_written_value() {
    let mut server = FakeServer::new();
    let outlook = IDispatchWrapper(APPLICATION_HANDLE);
    let item = outlook
        .call(&mut server, "CreateItem", vec![Variant::from(0i32)])
        .unwrap();
    let mail = item.idispatch().unwrap();

    mail.put(&mut server, "Subject", vec![Variant::text("first")]).unwrap();
    assert_eq!(mail.get(&mut server, "Subject").unwrap().string().unwrap(), "first");
    assert_eq!(mail.string(&mut server, "Subject").unwrap(), "first");

    // Overwriting is observable too, and values of any tag round-trip.
    mail.put(&mut server, "Subject", vec![Variant::from(31i32)]).unwrap();
    assert_eq!(mail.as_int(&mut server, "Subject").unwrap(), 31);
    mail.put(&mut server, "Body", vec![Variant::from(true)]).unwrap();
    assert_eq!(mail.as_bool(&mut server, "Body").unwrap(), true);
}

#[test]
fn unknown_member_yields_resolution_error() {
    let mut server = FakeServer::new();
    let outlook = IDispatchWrapper(APPLICATION_HANDLE);

    match outlook.get(&mut server, "Frobnicate") {
        Err(Error::MemberNotFound(n)) => assert_eq!(n, "Frobnicate"),
        other => panic!("expected a member-resolution error, got {:?}", other),
    }
    match outlook.put(&mut server, "Missing", vec![Variant::Int(1)]) {
        Err(Error::MemberNotFound(n)) => assert_eq!(n, "Missing"),
        other => panic!("expected a member-resolution error, got {:?}", other),
    }
    match outlook.call(&mut server, "Quit", vec![]) {
        Err(Error::MemberNotFound(n)) => assert_eq!(n, "Quit"),
        other => panic!("expected a member-resolution error, got {:?}", other),
    }
    // Nothing reached the server.
    assert!(server.entries.is_empty());
    assert!(server.items.is_empty());
}

#[test]
fn refused_invocations_yield_invocation_errors() {
    let mut server = FakeServer::new();
    let outlook = IDispatchWrapper(APPLICATION_HANDLE);

    // A known member invoked with the wrong kind or arguments.
    match outlook.call(&mut server, "CreateItem", vec![]) {
        Err(Error::InvokeFailed(n, kind)) => {
            assert_eq!(n, "CreateItem");
            assert_eq!(kind, InvokeKind::Method);
        },
        other => panic!("expected an invocation error, got {:?}", other),
    }
    // A known member on a handle that has no such member.
    match outlook.call(&mut server, "Send", vec![]) {
        Err(Error::InvokeFailed(n, kind)) => {
            assert_eq!(n, "Send");
            assert_eq!(kind, InvokeKind::Method);
        },
        other => panic!("expected an invocation error, got {:?}", other),
    }
    // A property invoked as a method.
    let item = outlook
        .call(&mut server, "CreateItem", vec![Variant::from(0i32)])
        .unwrap();
    let mail = item.idispatch().unwrap();
    match mail.call(&mut server, "To", vec![]) {
        Err(Error::InvokeFailed(n, kind)) => {
            assert_eq!(n, "To");
            assert_eq!(kind, InvokeKind::Method);
        },
        other => panic!("expected an invocation error, got {:?}", other),
    }
    // Refused invocations were still observed by the server.
    assert_eq!(server.entries.len(), 4);
}

#[test]
fn typed_read_of_mismatched_tag_fails_with_conversion_error() {
    let mut server = FakeServer::new();
    let outlook = IDispatchWrapper(APPLICATION_HANDLE);
    let item = outlook
        .call(&mut server, "CreateItem", vec![Variant::from(0i32)])
        .unwrap();
    let mail = item.idispatch().unwrap();
    mail.put(&mut server, "To", vec![Variant::text("a@b.com")]).unwrap();

    match mail.as_int(&mut server, "To") {
        Err(Error::Conversion { found, wanted }) => {
            assert_eq!(found, 8);
            assert_eq!(wanted, 3);
        },
        other => panic!("expected a conversion error, got {:?}", other),
    }
}

#[test]
fn created_items_get_consecutive_handles() {
    let mut server = FakeServer::new();
    let outlook = IDispatchWrapper(APPLICATION_HANDLE);
    let first = outlook
        .call(&mut server, "CreateItem", vec![Variant::from(0i32)])
        .unwrap();
    let second = outlook
        .call(&mut server, "CreateItem", vec![Variant::from(0i32)])
        .unwrap();
    assert_eq!(first.idispatch().unwrap().0, 1);
    assert_eq!(second.idispatch().unwrap().0, 2);
    assert_eq!(server.items.len(), 2);
}

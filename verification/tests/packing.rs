use oleproxy::params::{pack_dispparams, DISPID_PROPERTYPUT};
use oleproxy::{InvokeKind, Variant};

#[test]
fn packing_reverses_argument_order() {
    let args = vec![Variant::Int(1), Variant::Int(2), Variant::Int(3)];
    let p = pack_dispparams(InvokeKind::Method, args);
    let wire: Vec<i32> = p.args.iter().map(|v| v.as_int().unwrap()).collect();
    assert_eq!(wire, vec![3, 2, 1]);
}

#[test]
fn packing_reverses_for_every_kind() {
    for kind in [InvokeKind::PropertyGet, InvokeKind::PropertyPut, InvokeKind::Method] {
        let args = vec![Variant::Int(10), Variant::Int(20)];
        let p = pack_dispparams(kind, args);
        let wire: Vec<i32> = p.args.iter().map(|v| v.as_int().unwrap()).collect();
        assert_eq!(wire, vec![20, 10]);
    }
}

#[test]
fn property_put_marks_exactly_one_named_argument() {
    let p = pack_dispparams(InvokeKind::PropertyPut, vec![Variant::text("v")]);
    assert_eq!(p.named_dispids, vec![DISPID_PROPERTYPUT]);
    assert_eq!(DISPID_PROPERTYPUT, -3);

    let p3 = pack_dispparams(
        InvokeKind::PropertyPut,
        vec![Variant::Int(1), Variant::Int(2), Variant::Int(3)],
    );
    assert_eq!(p3.named_dispids, vec![DISPID_PROPERTYPUT]);
}

#[test]
fn property_put_without_arguments_marks_nothing() {
    let p = pack_dispparams(InvokeKind::PropertyPut, vec![]);
    assert!(p.named_dispids.is_empty());
}

#[test]
fn get_and_method_never_mark_named_arguments() {
    let p = pack_dispparams(InvokeKind::PropertyGet, vec![Variant::Int(5)]);
    assert!(p.named_dispids.is_empty());
    let q = pack_dispparams(InvokeKind::Method, vec![Variant::Int(5), Variant::Int(6)]);
    assert!(q.named_dispids.is_empty());
}

#[test]
fn packing_empty_list_is_empty() {
    let p = pack_dispparams(InvokeKind::Method, vec![]);
    assert!(p.args.is_empty());
    assert!(p.named_dispids.is_empty());
}

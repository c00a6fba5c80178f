use witx_lowering::schema::{
    variant_as_option, BuiltinType, CaseNode, HandleNode, IntRepr, MemberNode, RecordKind,
    RecordNode, RecordShape, TypeNode, TypeRef, VariantNode, VariantShape,
};

fn builtin(b: BuiltinType) -> TypeRef {
    TypeRef::Value(Box::new(TypeNode::Builtin(b)))
}

fn u32_ref() -> TypeRef {
    builtin(BuiltinType::U32 { lang_ptr_size: false })
}

fn case(name: &str, tref: Option<TypeRef>) -> CaseNode {
    CaseNode { name: name.to_string(), tref }
}

fn variant(cases: Vec<CaseNode>, option_shaped: bool) -> VariantNode {
    VariantNode {
        tag_repr: IntRepr::U8,
        cases,
        option_shaped,
        payload_offset: 4,
        mem_size: 8,
        tag_size: 1,
    }
}

fn member(name: &str, tref: TypeRef, offset: usize, size: usize) -> MemberNode {
    MemberNode { name: name.to_string(), tref, offset, size }
}

#[test]
fn tag_size_from_witx() {
    assert_eq!(VariantNode::from_witx(IntRepr::U8, vec![], 0, 0).tag_size, 1);
    assert_eq!(VariantNode::from_witx(IntRepr::U16, vec![], 0, 0).tag_size, 2);
    assert_eq!(VariantNode::from_witx(IntRepr::U32, vec![], 0, 0).tag_size, 4);
    assert_eq!(VariantNode::from_witx(IntRepr::U64, vec![], 0, 0).tag_size, 8);
}

#[test]
fn tag_size_from_witnext() {
    assert_eq!(VariantNode::from_witnext(IntRepr::U8, vec![], false, 0, 0).tag_size, 1);
    assert_eq!(VariantNode::from_witnext(IntRepr::U16, vec![], false, 0, 0).tag_size, 2);
    assert_eq!(VariantNode::from_witnext(IntRepr::U32, vec![], false, 0, 0).tag_size, 4);
    assert_eq!(VariantNode::from_witnext(IntRepr::U64, vec![], false, 0, 0).tag_size, 8);
}

#[test]
fn from_witx_keeps_the_facts() {
    let v = VariantNode::from_witx(
        IntRepr::U16,
        vec![case("a", None), case("b", Some(u32_ref()))],
        4,
        8,
    );
    assert_eq!(v.tag_repr, IntRepr::U16);
    assert_eq!(v.cases, vec![case("a", None), case("b", Some(u32_ref()))]);
    assert_eq!(v.payload_offset, 4);
    assert_eq!(v.mem_size, 8);
    assert!(!v.option_shaped);
}

#[test]
fn from_witx_finds_the_option_shape() {
    let v = VariantNode::from_witx(
        IntRepr::U8,
        vec![case("none", None), case("some", Some(u32_ref()))],
        4,
        8,
    );
    assert!(v.option_shaped);
    let v = VariantNode::from_witx(IntRepr::U8, vec![case("none", None), case("some", None)], 1, 1);
    assert!(!v.option_shaped);
    let v = VariantNode::from_witx(IntRepr::U8, vec![case("some", Some(u32_ref()))], 4, 8);
    assert!(!v.option_shaped);
}

#[test]
fn from_witnext_keeps_the_predicate() {
    let v = VariantNode::from_witnext(IntRepr::U8, vec![case("some", Some(u32_ref()))], true, 4, 8);
    assert!(v.option_shaped);
    assert_eq!(v.payload_offset, 4);
    assert_eq!(v.mem_size, 8);
    let v = VariantNode::from_witnext(
        IntRepr::U8,
        vec![case("none", None), case("some", Some(u32_ref()))],
        false,
        4,
        8,
    );
    assert!(!v.option_shaped);
}

#[test]
fn as_option_of_none_some() {
    let v = variant(vec![case("none", None), case("some", Some(u32_ref()))], false);
    assert_eq!(variant_as_option(&v), Some(&u32_ref()));
}

#[test]
fn as_option_wants_two_cases() {
    let v = variant(vec![case("some", Some(u32_ref()))], false);
    assert_eq!(variant_as_option(&v), None);
    let v = variant(
        vec![case("none", None), case("some", Some(u32_ref())), case("more", None)],
        false,
    );
    assert_eq!(variant_as_option(&v), None);
    assert_eq!(variant_as_option(&variant(vec![], false)), None);
}

#[test]
fn as_option_wants_the_names() {
    let v = variant(vec![case("nil", None), case("some", Some(u32_ref()))], false);
    assert_eq!(variant_as_option(&v), None);
    let v = variant(vec![case("none", None), case("just", Some(u32_ref()))], false);
    assert_eq!(variant_as_option(&v), None);
    let v = variant(vec![case("some", Some(u32_ref())), case("none", None)], false);
    assert_eq!(variant_as_option(&v), None);
}

#[test]
fn as_option_wants_the_payloads() {
    let v = variant(vec![case("none", Some(u32_ref())), case("some", Some(u32_ref()))], false);
    assert_eq!(variant_as_option(&v), None);
    let v = variant(vec![case("none", None), case("some", None)], false);
    assert_eq!(variant_as_option(&v), None);
}

#[test]
fn classify_bool() {
    let v = variant(vec![case("false", None), case("true", None)], false);
    assert!(v.bool_shaped());
    assert_eq!(v.classify(), VariantShape::Bool);
}

#[test]
fn classify_true_false_is_enum() {
    let v = variant(vec![case("true", None), case("false", None)], false);
    assert!(!v.bool_shaped());
    assert_eq!(v.classify(), VariantShape::Enum);
}

#[test]
fn classify_bool_with_payload_is_union() {
    let v = variant(vec![case("false", None), case("true", Some(u32_ref()))], false);
    assert!(!v.bool_shaped());
    assert_eq!(v.classify(), VariantShape::Union);
}

#[test]
fn classify_enum() {
    let v = variant(vec![case("a", None), case("b", None), case("c", None)], false);
    assert!(v.enum_shaped());
    assert_eq!(v.classify(), VariantShape::Enum);
    assert_eq!(variant(vec![], false).classify(), VariantShape::Enum);
    assert_eq!(variant(vec![case("only", None)], false).classify(), VariantShape::Enum);
}

#[test]
fn classify_option() {
    let v = variant(vec![case("some", Some(u32_ref()))], true);
    assert_eq!(v.classify(), VariantShape::Option);
    let v = variant(vec![case("some", None)], true);
    assert_eq!(v.classify(), VariantShape::Option);
}

#[test]
fn classify_option_wants_one_case() {
    let v = variant(vec![case("none", None), case("some", Some(u32_ref()))], true);
    assert_eq!(v.classify(), VariantShape::Union);
    let v = variant(vec![case("some", Some(u32_ref()))], false);
    assert_eq!(v.classify(), VariantShape::Union);
}

#[test]
fn classify_result() {
    let v = variant(vec![case("ok", Some(u32_ref())), case("err", Some(u32_ref()))], false);
    assert!(v.expected_shaped());
    assert_eq!(v.classify(), VariantShape::Result);
    let v = variant(vec![case("ok", None), case("err", None)], false);
    assert!(v.enum_shaped());
    assert_eq!(v.classify(), VariantShape::Result);
}

#[test]
fn classify_reordered_or_renamed_result() {
    let v = variant(vec![case("err", Some(u32_ref())), case("ok", Some(u32_ref()))], false);
    assert!(!v.expected_shaped());
    assert_eq!(v.classify(), VariantShape::Union);
    let v = variant(vec![case("ok", Some(u32_ref())), case("error", Some(u32_ref()))], false);
    assert_eq!(v.classify(), VariantShape::Union);
    let v = variant(vec![case("Ok", Some(u32_ref())), case("err", Some(u32_ref()))], false);
    assert_eq!(v.classify(), VariantShape::Union);
    let v = variant(
        vec![case("ok", Some(u32_ref())), case("err", Some(u32_ref())), case("x", None)],
        false,
    );
    assert_eq!(v.classify(), VariantShape::Union);
    let v = variant(vec![case("err", None), case("ok", None)], false);
    assert_eq!(v.classify(), VariantShape::Enum);
}

#[test]
fn classify_union() {
    let v = variant(vec![case("a", Some(u32_ref())), case("b", None)], false);
    assert!(!v.enum_shaped());
    assert_eq!(v.classify(), VariantShape::Union);
}

#[test]
fn classify_record() {
    let r = RecordNode { kind: RecordKind::Bitflags(IntRepr::U8), members: vec![] };
    assert_eq!(r.classify(), RecordShape::Constants);
    let r = RecordNode { kind: RecordKind::Tuple, members: vec![] };
    assert_eq!(r.classify(), RecordShape::Tuple);
    let r = RecordNode { kind: RecordKind::Other, members: vec![] };
    assert_eq!(r.classify(), RecordShape::Struct);
}

#[test]
fn well_formed_record() {
    let r = RecordNode {
        kind: RecordKind::Other,
        members: vec![member("a", u32_ref(), 0, 4), member("b", u32_ref(), 4, 4)],
    };
    assert!(r.is_well_formed());
    let r = RecordNode { kind: RecordKind::Tuple, members: vec![] };
    assert!(r.is_well_formed());
}

#[test]
fn overlapping_members_are_not_well_formed() {
    let r = RecordNode {
        kind: RecordKind::Other,
        members: vec![member("a", u32_ref(), 0, 8), member("b", u32_ref(), 4, 4)],
    };
    assert!(!r.is_well_formed());
    let r = RecordNode {
        kind: RecordKind::Tuple,
        members: vec![member("0", u32_ref(), 4, 4), member("1", u32_ref(), 0, 4)],
    };
    assert!(!r.is_well_formed());
}

#[test]
fn flags_are_well_formed_up_to_64() {
    let mut members = Vec::new();
    for i in 0..64 {
        members.push(member(&format!("f{}", i), u32_ref(), 0, 0));
    }
    let r = RecordNode { kind: RecordKind::Bitflags(IntRepr::U64), members };
    assert!(r.is_well_formed());
    let mut members = Vec::new();
    for i in 0..65 {
        members.push(member(&format!("f{}", i), u32_ref(), 0, 0));
    }
    let r = RecordNode { kind: RecordKind::Bitflags(IntRepr::U64), members };
    assert!(!r.is_well_formed());
}

#[test]
fn handle_without_name_is_not_well_formed() {
    let h = TypeNode::Handle(HandleNode { resource_name: None });
    assert!(!h.is_well_formed());
    let h = TypeNode::Handle(HandleNode { resource_name: Some("fd".to_string()) });
    assert!(h.is_well_formed());
    let nested = TypeNode::List(TypeRef::Value(Box::new(TypeNode::Handle(HandleNode {
        resource_name: None,
    }))));
    assert!(!nested.is_well_formed());
}

#[test]
fn union_sizes_must_fit() {
    let mut v = variant(vec![case("a", Some(u32_ref())), case("b", None)], false);
    assert!(v.is_well_formed());
    v.tag_size = 9;
    assert!(!v.is_well_formed());
    v.tag_size = 1;
    v.payload_offset = 9;
    assert!(!v.is_well_formed());
}

#[test]
fn result_tag_must_fit() {
    let mut v = variant(vec![case("ok", None), case("err", None)], false);
    v.payload_offset = 100;
    assert!(v.is_well_formed());
    v.tag_size = 9;
    assert!(!v.is_well_formed());
}

#[test]
fn enum_sizes_do_not_matter() {
    let mut v = variant(vec![case("a", None), case("b", None)], false);
    v.tag_size = 9;
    v.payload_offset = 100;
    assert!(v.is_well_formed());
}

#[test]
fn payloads_must_be_well_formed() {
    let bad = TypeRef::Value(Box::new(TypeNode::Handle(HandleNode { resource_name: None })));
    let v = variant(vec![case("a", Some(bad)), case("b", None)], false);
    assert!(!v.is_well_formed());
    let bad = TypeRef::Value(Box::new(TypeNode::Handle(HandleNode { resource_name: None })));
    assert!(!case("a", Some(bad)).is_well_formed());
    assert!(case("a", None).is_well_formed());
}

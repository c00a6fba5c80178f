//! Lowering: from a type as the schema describes it to the canonical type.
//!
//! `lowered` says, for every kind of node, which canonical type it stands
//! for. It is a function of the view of the node, so two descriptions with
//! the same content are lowered to the same type, whichever schema library
//! they were read from. The executable functions compute that type for the
//! nodes that are `well_formed`. Offsets and sizes are taken from the node;
//! the only arithmetic is the subtraction that gives a padding or a
//! remaining size.

use crate::astype::{
    ASAlias, ASConstant, ASConstants, ASEnum, ASEnumChoice, ASOption, ASResult, ASStructMember,
    ASTupleMember, ASType, ASUnion, ASUnionMember, ConstantView, EnumChoiceView, StructMemberView,
    TupleMemberView, TypeView, UnionMemberView,
};
use crate::schema::{
    BuiltinType, CaseNode, CaseView, IntRepr, RecordKind, RecordNode, RecordView, TypeNode,
    TypeNodeView, TypeRef, TypeRefView, VariantNode, VariantShape, VariantView,
};
use std::rc::Rc;
use vstd::arithmetic::power2::{lemma2_to64, lemma_pow2_strictly_increases, pow2};
use vstd::bits::lemma_u64_shl_is_mul;
use vstd::prelude::*;

verus! {

impl IntRepr {
    /// The unsigned integer type of the same width.
    pub open spec fn lowered(self) -> TypeView {
        match self {
            IntRepr::U8 => TypeView::U8,
            IntRepr::U16 => TypeView::U16,
            IntRepr::U32 => TypeView::U32,
            IntRepr::U64 => TypeView::U64,
        }
    }
}

impl BuiltinType {
    /// The leaf type of a builtin. A `char` is a 32-bit character; an 8-bit
    /// integer marked as a C character is an 8-bit character; a 32-bit
    /// integer marked as pointer-sized is the pointer-sized unsigned type.
    pub open spec fn lowered(self) -> TypeView {
        match self {
            BuiltinType::Char => TypeView::Char32,
            BuiltinType::F32 => TypeView::F32,
            BuiltinType::F64 => TypeView::F64,
            BuiltinType::S8 => TypeView::S8,
            BuiltinType::S16 => TypeView::S16,
            BuiltinType::S32 => TypeView::S32,
            BuiltinType::S64 => TypeView::S64,
            BuiltinType::U8 { lang_c_char } => if lang_c_char {
                TypeView::Char8
            } else {
                TypeView::U8
            },
            BuiltinType::U16 => TypeView::U16,
            BuiltinType::U32 { lang_ptr_size } => if lang_ptr_size {
                TypeView::USize
            } else {
                TypeView::U32
            },
            BuiltinType::U64 => TypeView::U64,
        }
    }
}

impl CaseView {
    /// The lowered payload of the case, `Void` where it has none.
    pub open spec fn lowered_payload(self) -> TypeView
        decreases self,
    {
        match self.tref {
            Some(tref) => tref.lowered(),
            None => TypeView::Void,
        }
    }
}

impl VariantView {
    /// Choice `i` of an enumeration: the name of the case, and its position
    /// as value.
    pub open spec fn lowered_choice(self, i: int) -> EnumChoiceView {
        EnumChoiceView { name: self.cases[i].name, value: i as nat }
    }

    /// Member `i` of a union: the name of the case and its lowered payload.
    pub open spec fn lowered_member(self, i: int) -> UnionMemberView
        decreases self, 0nat,
    {
        if 0 <= i < self.cases.len() {
            UnionMemberView { name: self.cases[i].name, ty: self.cases[i].lowered_payload() }
        } else {
            arbitrary()
        }
    }

    /// What is left of the variant after the tag.
    pub open spec fn padding_after_tag(self) -> int {
        self.mem_size - self.tag_size
    }

    /// What is left of the variant from the start of the payload.
    pub open spec fn max_member_size(self) -> int {
        self.mem_size - self.payload_offset
    }

    /// The canonical type of the variant, by its category.
    pub open spec fn lowered(self) -> TypeView
        decreases self, 1nat,
    {
        let tag_repr = Box::new(self.tag_repr.lowered());
        match self.shape() {
            VariantShape::Bool => TypeView::Bool,
            VariantShape::Enum => TypeView::Enum {
                repr: tag_repr,
                choices: Seq::new(self.cases.len(), |i: int| self.lowered_choice(i)),
            },
            VariantShape::Option => TypeView::Option {
                tag_repr,
                ty: Box::new(self.lowered_member(0).ty),
                offset: self.payload_offset,
            },
            VariantShape::Result => TypeView::Result {
                tag_repr,
                error_type: Box::new(self.lowered_member(1).ty),
                ok_type: Box::new(self.lowered_member(0).ty),
                result_offset: self.payload_offset,
                padding_after_tag: self.padding_after_tag() as nat,
            },
            VariantShape::Union => TypeView::Union {
                tag_repr,
                members: Seq::new(self.cases.len(), |i: int| self.lowered_member(i)),
                member_offset: self.payload_offset,
                padding_after_tag: self.padding_after_tag() as nat,
                max_member_size: self.max_member_size() as nat,
            },
        }
    }
}

impl RecordView {
    /// Constant `i` of a set of flags: the name of the member, and bit `i`
    /// as value.
    pub open spec fn lowered_constant(self, i: int) -> ConstantView {
        ConstantView { name: self.members[i].name, value: pow2(i as nat) }
    }

    /// Member `i` of a tuple: lowered type, offset as given, and the gap to
    /// the next member as padding.
    pub open spec fn lowered_tuple_member(self, i: int) -> TupleMemberView
        decreases self, 0nat,
    {
        if 0 <= i < self.members.len() {
            TupleMemberView {
                ty: self.members[i].tref.lowered(),
                offset: self.members[i].offset,
                padding: self.padding(i) as nat,
            }
        } else {
            arbitrary()
        }
    }

    /// Member `i` of a struct: as for a tuple, with the name kept.
    pub open spec fn lowered_struct_member(self, i: int) -> StructMemberView
        decreases self, 0nat,
    {
        if 0 <= i < self.members.len() {
            StructMemberView {
                name: self.members[i].name,
                offset: self.members[i].offset,
                ty: self.members[i].tref.lowered(),
                padding: self.padding(i) as nat,
            }
        } else {
            arbitrary()
        }
    }

    /// The canonical type of the record, by its category.
    pub open spec fn lowered(self) -> TypeView
        decreases self, 1nat,
    {
        match self.kind {
            RecordKind::Bitflags(repr) => TypeView::Constants {
                repr: Box::new(repr.lowered()),
                constants: Seq::new(self.members.len(), |i: int| self.lowered_constant(i)),
            },
            RecordKind::Tuple => TypeView::Tuple {
                members: Seq::new(self.members.len(), |i: int| self.lowered_tuple_member(i)),
            },
            RecordKind::Other => TypeView::Struct {
                members: Seq::new(self.members.len(), |i: int| self.lowered_struct_member(i)),
            },
        }
    }
}

impl TypeNodeView {
    /// The canonical type of the node.
    ///
    /// A handle keeps the name of its resource; without one it has no
    /// canonical type. A list of characters is a string, whose elements
    /// are 8-bit characters whatever the width of the characters listed;
    /// any other list is a slice. A buffer is a write buffer where it is an
    /// output, else a read buffer.
    pub open spec fn lowered(self) -> TypeView
        decreases self, 1nat,
    {
        match self {
            TypeNodeView::Builtin(builtin) => builtin.lowered(),
            TypeNodeView::ConstPointer(tref) => TypeView::ConstPtr {
                target: Box::new(tref.lowered()),
            },
            TypeNodeView::Pointer(tref) => TypeView::MutPtr { target: Box::new(tref.lowered()) },
            TypeNodeView::Handle { resource_name } => TypeView::Handle {
                resource: resource_name->Some_0,
            },
            TypeNodeView::Record(record) => record.lowered(),
            TypeNodeView::Variant(variant) => variant.lowered(),
            TypeNodeView::List(tref) => {
                let element = tref.lowered();
                if element is Char32 || element is Char8 {
                    TypeView::String { element: Box::new(TypeView::Char8) }
                } else {
                    TypeView::Slice { element: Box::new(element) }
                }
            },
            TypeNodeView::Buffer { out, tref } => if out {
                TypeView::WriteBuffer { element: Box::new(tref.lowered()) }
            } else {
                TypeView::ReadBuffer { element: Box::new(tref.lowered()) }
            },
        }
    }
}

impl TypeRefView {
    /// The canonical type of what is referred to: for a reference by name
    /// an alias that keeps the name, for a type in place that type.
    pub open spec fn lowered(self) -> TypeView
        decreases self, 1nat,
    {
        match self {
            TypeRefView::Value(node) => node.lowered(),
            TypeRefView::Name { name, tref } => TypeView::Alias {
                name,
                target: Box::new(tref.lowered()),
            },
        }
    }
}

impl vstd::std_specs::convert::FromSpecImpl<IntRepr> for ASType {
    open spec fn obeys_from_spec() -> bool {
        true
    }

    open spec fn from_spec(repr: IntRepr) -> ASType {
        match repr {
            IntRepr::U8 => ASType::U8,
            IntRepr::U16 => ASType::U16,
            IntRepr::U32 => ASType::U32,
            IntRepr::U64 => ASType::U64,
        }
    }
}

impl From<IntRepr> for ASType {
    /// The unsigned integer type of the width of `repr`.
    fn from(repr: IntRepr) -> (t: ASType)
        ensures
            t@ == repr.lowered(),
    {
        match repr {
            IntRepr::U8 => ASType::U8,
            IntRepr::U16 => ASType::U16,
            IntRepr::U32 => ASType::U32,
            IntRepr::U64 => ASType::U64,
        }
    }
}

impl vstd::std_specs::convert::FromSpecImpl<&BuiltinType> for ASType {
    open spec fn obeys_from_spec() -> bool {
        true
    }

    open spec fn from_spec(builtin: &BuiltinType) -> ASType {
        match *builtin {
            BuiltinType::Char => ASType::Char32,
            BuiltinType::F32 => ASType::F32,
            BuiltinType::F64 => ASType::F64,
            BuiltinType::S8 => ASType::S8,
            BuiltinType::S16 => ASType::S16,
            BuiltinType::S32 => ASType::S32,
            BuiltinType::S64 => ASType::S64,
            BuiltinType::U8 { lang_c_char } => if lang_c_char {
                ASType::Char8
            } else {
                ASType::U8
            },
            BuiltinType::U16 => ASType::U16,
            BuiltinType::U32 { lang_ptr_size } => if lang_ptr_size {
                ASType::USize
            } else {
                ASType::U32
            },
            BuiltinType::U64 => ASType::U64,
        }
    }
}

impl From<&BuiltinType> for ASType {
    /// The leaf type of `builtin`.
    fn from(builtin: &BuiltinType) -> (t: ASType)
        ensures
            t@ == builtin.lowered(),
    {
        match builtin {
            BuiltinType::Char => ASType::Char32,
            BuiltinType::F32 => ASType::F32,
            BuiltinType::F64 => ASType::F64,
            BuiltinType::S8 => ASType::S8,
            BuiltinType::S16 => ASType::S16,
            BuiltinType::S32 => ASType::S32,
            BuiltinType::S64 => ASType::S64,
            BuiltinType::U8 { lang_c_char: false } => ASType::U8,
            BuiltinType::U8 { lang_c_char: true } => ASType::Char8,
            BuiltinType::U16 => ASType::U16,
            BuiltinType::U32 { lang_ptr_size: false } => ASType::U32,
            BuiltinType::U32 { lang_ptr_size: true } => ASType::USize,
            BuiltinType::U64 => ASType::U64,
        }
    }
}

/// The lowered payload of a case, `Void` where it has none.
fn lower_payload(case: &CaseNode) -> (t: ASType)
    requires
        case@.well_formed(),
    ensures
        t@ == case@.lowered_payload(),
    decreases case, 2nat,
{
    match &case.tref {
        None => ASType::Void,
        Some(tref) => ASType::from_type_ref(tref),
    }
}

/// The set of constants of a record of flags.
fn lower_constants(record: &RecordNode, repr: IntRepr) -> (t: ASType)
    requires
        record@.well_formed(),
        record.kind == RecordKind::Bitflags(repr),
    ensures
        t@ == record@.lowered(),
{
    let mut constants: Vec<ASConstant> = Vec::new();
    let mut i: usize = 0;
    while i < record.members.len()
        invariant
            i <= record.members.len() <= 64,
            constants.len() == i,
            forall|j: int| 0 <= j < i ==> (#[trigger] constants[j])@ == record@.lowered_constant(j),
        decreases record.members.len() - i,
    {
        proof {
            lemma2_to64();
            lemma_pow2_strictly_increases(i as nat, 64);
            lemma_u64_shl_is_mul(1u64, i as u64);
        }
        let value: u64 = 1u64 << (i as u64);
        constants.push(ASConstant { name: record.members[i].name.clone(), value });
        i += 1;
    }
    let t = ASType::Constants(ASConstants { repr: Rc::new(ASType::from(repr)), constants });
    proof {
        assert(t@->Constants_constants =~= record@.lowered()->Constants_constants);
    }
    t
}

/// The tuple of a positional record.
fn lower_tuple(record: &RecordNode) -> (t: ASType)
    requires
        record@.well_formed(),
        record.kind == RecordKind::Tuple,
    ensures
        t@ == record@.lowered(),
    decreases record, 2nat,
{
    let n = record.members.len();
    let mut members: Vec<ASTupleMember> = Vec::new();
    let mut i: usize = 0;
    while i < n
        invariant
            n == record.members.len(),
            i <= n,
            record@.well_formed(),
            record.kind == RecordKind::Tuple,
            members.len() == i,
            forall|j: int|
                0 <= j < i ==> (#[trigger] members[j])@ == record@.lowered_tuple_member(j),
        decreases n - i,
    {
        let member = &record.members[i];
        proof {
            assert(record@.members[i as int].tref.well_formed() && record@.padding(i as int) >= 0);
        }
        let padding: usize = if i + 1 < n {
            record.members[i + 1].offset - member.offset - member.size
        } else {
            0
        };
        let type_ = ASType::from_type_ref(&member.tref);
        members.push(ASTupleMember { type_: Rc::new(type_), offset: member.offset, padding });
        i += 1;
    }
    let t = ASType::Tuple(members);
    proof {
        assert(t@->Tuple_members =~= record@.lowered()->Tuple_members);
    }
    t
}

/// The struct of a record with named members.
fn lower_struct(record: &RecordNode) -> (t: ASType)
    requires
        record@.well_formed(),
        record.kind == RecordKind::Other,
    ensures
        t@ == record@.lowered(),
    decreases record, 2nat,
{
    let n = record.members.len();
    let mut members: Vec<ASStructMember> = Vec::new();
    let mut i: usize = 0;
    while i < n
        invariant
            n == record.members.len(),
            i <= n,
            record@.well_formed(),
            record.kind == RecordKind::Other,
            members.len() == i,
            forall|j: int|
                0 <= j < i ==> (#[trigger] members[j])@ == record@.lowered_struct_member(j),
        decreases n - i,
    {
        let member = &record.members[i];
        proof {
            assert(record@.members[i as int].tref.well_formed() && record@.padding(i as int) >= 0);
        }
        let padding: usize = if i + 1 < n {
            record.members[i + 1].offset - member.offset - member.size
        } else {
            0
        };
        let type_ = ASType::from_type_ref(&member.tref);
        members.push(
            ASStructMember {
                name: member.name.clone(),
                offset: member.offset,
                type_: Rc::new(type_),
                padding,
            },
        );
        i += 1;
    }
    let t = ASType::Struct(members);
    proof {
        assert(t@->Struct_members =~= record@.lowered()->Struct_members);
    }
    t
}

/// The enumeration of a variant without payloads.
fn lower_enum(variant: &VariantNode) -> (t: ASType)
    requires
        variant@.shape() is Enum,
    ensures
        t@ == variant@.lowered(),
{
    let mut choices: Vec<ASEnumChoice> = Vec::new();
    let mut i: usize = 0;
    while i < variant.cases.len()
        invariant
            i <= variant.cases.len(),
            choices.len() == i,
            forall|j: int| 0 <= j < i ==> (#[trigger] choices[j])@ == variant@.lowered_choice(j),
        decreases variant.cases.len() - i,
    {
        choices.push(ASEnumChoice { name: variant.cases[i].name.clone(), value: i });
        i += 1;
    }
    let t = ASType::Enum(ASEnum { repr: Rc::new(ASType::from(variant.tag_repr)), choices });
    proof {
        assert(t@->Enum_choices =~= variant@.lowered()->Enum_choices);
    }
    t
}

/// The option of a variant that stands for an optional value.
fn lower_option(variant: &VariantNode) -> (t: ASType)
    requires
        variant@.well_formed(),
        variant@.shape() is Option,
    ensures
        t@ == variant@.lowered(),
    decreases variant, 3nat,
{
    let payload = lower_payload(&variant.cases[0]);
    ASType::Option(
        ASOption {
            tag_repr: Rc::new(ASType::from(variant.tag_repr)),
            type_: Rc::new(payload),
            offset: variant.payload_offset,
        },
    )
}

/// The result of a variant of an `ok` and an `err` case.
fn lower_result(variant: &VariantNode) -> (t: ASType)
    requires
        variant@.well_formed(),
        variant@.shape() is Result,
    ensures
        t@ == variant@.lowered(),
    decreases variant, 3nat,
{
    let ok_type = lower_payload(&variant.cases[0]);
    let error_type = lower_payload(&variant.cases[1]);
    ASType::Result(
        ASResult {
            tag_repr: Rc::new(ASType::from(variant.tag_repr)),
            error_type: Rc::new(error_type),
            ok_type: Rc::new(ok_type),
            result_offset: variant.payload_offset,
            padding_after_tag: variant.mem_size - variant.tag_size,
        },
    )
}

/// The tagged union of any other variant.
fn lower_union(variant: &VariantNode) -> (t: ASType)
    requires
        variant@.well_formed(),
        variant@.shape() is Union,
    ensures
        t@ == variant@.lowered(),
    decreases variant, 3nat,
{
    let n = variant.cases.len();
    let mut members: Vec<ASUnionMember> = Vec::new();
    let mut i: usize = 0;
    while i < n
        invariant
            n == variant.cases.len(),
            i <= n,
            variant@.well_formed(),
            members.len() == i,
            forall|j: int| 0 <= j < i ==> (#[trigger] members[j])@ == variant@.lowered_member(j),
        decreases n - i,
    {
        let case = &variant.cases[i];
        assert(variant@.cases[i as int] == case@);
        let payload = lower_payload(case);
        members.push(ASUnionMember { name: case.name.clone(), type_: Rc::new(payload) });
        i += 1;
    }
    let t = ASType::Union(
        ASUnion {
            tag_repr: Rc::new(ASType::from(variant.tag_repr)),
            members,
            member_offset: variant.payload_offset,
            padding_after_tag: variant.mem_size - variant.tag_size,
            max_member_size: variant.mem_size - variant.payload_offset,
        },
    );
    proof {
        assert(t@->Union_members =~= variant@.lowered()->Union_members);
    }
    t
}

impl ASType {
    /// The canonical type of a record.
    pub fn from_record(record: &RecordNode) -> (t: ASType)
        requires
            record@.well_formed(),
        ensures
            t@ == record@.lowered(),
        decreases record, 3nat,
    {
        match record.kind {
            RecordKind::Bitflags(repr) => lower_constants(record, repr),
            RecordKind::Tuple => lower_tuple(record),
            RecordKind::Other => lower_struct(record),
        }
    }

    /// The canonical type of a variant.
    pub fn from_variant(variant: &VariantNode) -> (t: ASType)
        requires
            variant@.well_formed(),
        ensures
            t@ == variant@.lowered(),
        decreases variant, 4nat,
    {
        match variant.classify() {
            VariantShape::Bool => ASType::Bool,
            VariantShape::Enum => lower_enum(variant),
            VariantShape::Option => lower_option(variant),
            VariantShape::Result => lower_result(variant),
            VariantShape::Union => lower_union(variant),
        }
    }

    /// The canonical type of a type node.
    pub fn from_type(node: &TypeNode) -> (t: ASType)
        requires
            node@.well_formed(),
        ensures
            t@ == node@.lowered(),
        decreases node, 5nat,
    {
        match node {
            TypeNode::Builtin(builtin) => ASType::from(builtin),
            TypeNode::ConstPointer(tref) => {
                let pointee = ASType::from_type_ref(tref);
                ASType::ConstPtr(Rc::new(pointee))
            },
            TypeNode::Pointer(tref) => {
                let pointee = ASType::from_type_ref(tref);
                ASType::MutPtr(Rc::new(pointee))
            },
            TypeNode::Handle(handle) => {
                let name = handle.resource_name.as_ref().unwrap();
                ASType::Handle(name.clone())
            },
            TypeNode::Record(record) => ASType::from_record(record),
            TypeNode::Variant(variant) => ASType::from_variant(variant),
            TypeNode::List(tref) => {
                let elements_type = ASType::from_type_ref(tref);
                match elements_type {
                    ASType::Char32 | ASType::Char8 => {
                        assert(ASType::Char8@ == TypeView::Char8);
                        ASType::String(Rc::new(ASType::Char8))
                    },
                    _ => ASType::Slice(Rc::new(elements_type)),
                }
            },
            TypeNode::Buffer(buffer) => {
                let elements_type = ASType::from_type_ref(&buffer.tref);
                if buffer.out {
                    ASType::WriteBuffer(Rc::new(elements_type))
                } else {
                    ASType::ReadBuffer(Rc::new(elements_type))
                }
            },
        }
    }

    /// The canonical type of a use of a type: an alias for a use by name,
    /// the type itself for a type in place.
    pub fn from_type_ref(tref: &TypeRef) -> (t: ASType)
        requires
            tref@.well_formed(),
        ensures
            t@ == tref@.lowered(),
        decreases tref, 5nat,
    {
        match tref {
            TypeRef::Value(node) => ASType::from_type(node),
            TypeRef::Name(named) => {
                let target = ASType::from_type_ref(&named.tref);
                ASType::Alias(ASAlias { name: named.name.clone(), type_: Rc::new(target) })
            },
        }
    }
}

} // verus!

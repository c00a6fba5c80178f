//! The source side of lowering: a type definition as a schema library
//! describes it, together with the layout facts that the library reports
//! for it (member offsets and sizes, the size of a variant and the offset of
//! its payload).
//!
//! Nothing here computes a layout. A node only records what it was told.
//! Every node has a mathematical view, in which names are sequences of
//! characters, sizes and offsets are naturals and lists are sequences; what
//! a node is lowered to depends on its view alone. `well_formed` says which
//! views can be lowered.

use vstd::prelude::*;
use vstd::string::StringExecFns;

verus! {

/// The integer type that holds a tag or a set of flags.
#[derive(Clone, Copy, Debug, PartialEq, Eq)]
pub enum IntRepr {
    U8,
    U16,
    U32,
    U64,
}

#[derive(Clone, Copy, Debug, PartialEq, Eq)]
pub enum BuiltinType {
    /// A 32-bit unicode scalar value.
    Char,
    /// An 8-bit unsigned integer; with `lang_c_char` it stands for a
    /// character of a C string.
    U8 { lang_c_char: bool },
    U16,
    /// A 32-bit unsigned integer; with `lang_ptr_size` it stands for a
    /// pointer-sized value.
    U32 { lang_ptr_size: bool },
    U64,
    S8,
    S16,
    S32,
    S64,
    F32,
    F64,
}

/// A use of a type: by name, or in place.
#[derive(Debug, PartialEq, Eq)]
pub enum TypeRef {
    Name(Box<NamedType>),
    Value(Box<TypeNode>),
}

#[derive(Debug, PartialEq, Eq)]
pub struct NamedType {
    pub name: String,
    pub tref: TypeRef,
}

#[derive(Debug, PartialEq, Eq)]
pub enum TypeNode {
    Record(RecordNode),
    Variant(VariantNode),
    Handle(HandleNode),
    List(TypeRef),
    Pointer(TypeRef),
    ConstPointer(TypeRef),
    Builtin(BuiltinType),
    Buffer(BufferNode),
}

#[derive(Clone, Copy, Debug, PartialEq, Eq)]
pub enum RecordKind {
    /// Members are positional.
    Tuple,
    /// Every member is one bit of an integer of the given type.
    Bitflags(IntRepr),
    /// Any other record.
    Other,
}

/// A member of a record with the offset at which the schema library places
/// it and the size it reports for the member's type.
#[derive(Debug, PartialEq, Eq)]
pub struct MemberNode {
    pub name: String,
    pub tref: TypeRef,
    pub offset: usize,
    pub size: usize,
}

#[derive(Debug, PartialEq, Eq)]
pub struct RecordNode {
    pub kind: RecordKind,
    pub members: Vec<MemberNode>,
}

#[derive(Debug, PartialEq, Eq)]
pub struct CaseNode {
    pub name: String,
    pub tref: Option<TypeRef>,
}

/// A sum type: its cases, and what the schema library reports of its
/// layout.
#[derive(Debug, PartialEq, Eq)]
pub struct VariantNode {
    pub tag_repr: IntRepr,
    pub cases: Vec<CaseNode>,
    /// Whether the schema reports the variant as an optional value.
    pub option_shaped: bool,
    /// Where the payload starts.
    pub payload_offset: usize,
    /// The size of the whole variant.
    pub mem_size: usize,
    /// The size of the tag.
    pub tag_size: usize,
}

/// A handle. The name of the resource it refers to is missing where the
/// schema library does not record one.
#[derive(Debug, PartialEq, Eq)]
pub struct HandleNode {
    pub resource_name: Option<String>,
}

#[derive(Debug, PartialEq, Eq)]
pub struct BufferNode {
    /// Whether the buffer is written to (`true`) or read from.
    pub out: bool,
    pub tref: TypeRef,
}

/// The category that a variant is lowered to.
#[derive(Clone, Copy, Debug, PartialEq, Eq)]
pub enum VariantShape {
    Bool,
    Enum,
    Option,
    Result,
    Union,
}

/// The category that a record is lowered to.
#[derive(Clone, Copy, Debug, PartialEq, Eq)]
pub enum RecordShape {
    Constants,
    Tuple,
    Struct,
}

/// What a `TypeRef` stands for.
pub enum TypeRefView {
    Name { name: Seq<char>, tref: Box<TypeRefView> },
    Value(Box<TypeNodeView>),
}

/// What a `TypeNode` stands for.
pub enum TypeNodeView {
    Record(RecordView),
    Variant(VariantView),
    Handle { resource_name: Option<Seq<char>> },
    List(TypeRefView),
    Pointer(TypeRefView),
    ConstPointer(TypeRefView),
    Builtin(BuiltinType),
    Buffer { out: bool, tref: TypeRefView },
}

pub struct MemberView {
    pub name: Seq<char>,
    pub tref: TypeRefView,
    pub offset: nat,
    pub size: nat,
}

pub struct RecordView {
    pub kind: RecordKind,
    pub members: Seq<MemberView>,
}

pub struct CaseView {
    pub name: Seq<char>,
    pub tref: Option<TypeRefView>,
}

pub struct VariantView {
    pub tag_repr: IntRepr,
    pub cases: Seq<CaseView>,
    pub option_shaped: bool,
    pub payload_offset: nat,
    pub mem_size: nat,
    pub tag_size: nat,
}

impl TypeRef {
    /// The view, written as an inherent function so that it can recurse.
    pub open spec fn model(self) -> TypeRefView
        decreases self,
    {
        match self {
            TypeRef::Name(named) => TypeRefView::Name {
                name: named.name@,
                tref: Box::new(named.tref.model()),
            },
            TypeRef::Value(node) => TypeRefView::Value(Box::new((*node).model())),
        }
    }
}

impl TypeNode {
    pub open spec fn model(self) -> TypeNodeView
        decreases self,
    {
        match self {
            TypeNode::Record(record) => TypeNodeView::Record(record.model()),
            TypeNode::Variant(variant) => TypeNodeView::Variant(variant.model()),
            TypeNode::Handle(handle) => TypeNodeView::Handle {
                resource_name: match handle.resource_name {
                    Some(name) => Some(name@),
                    None => None,
                },
            },
            TypeNode::List(tref) => TypeNodeView::List(tref.model()),
            TypeNode::Pointer(tref) => TypeNodeView::Pointer(tref.model()),
            TypeNode::ConstPointer(tref) => TypeNodeView::ConstPointer(tref.model()),
            TypeNode::Builtin(builtin) => TypeNodeView::Builtin(builtin),
            TypeNode::Buffer(buffer) => TypeNodeView::Buffer {
                out: buffer.out,
                tref: buffer.tref.model(),
            },
        }
    }
}

impl MemberNode {
    pub open spec fn model(self) -> MemberView
        decreases self,
    {
        MemberView {
            name: self.name@,
            tref: self.tref.model(),
            offset: self.offset as nat,
            size: self.size as nat,
        }
    }
}

impl RecordNode {
    pub open spec fn model(self) -> RecordView
        decreases self,
    {
        RecordView {
            kind: self.kind,
            members: Seq::new(
                self.members.len() as nat,
                |i: int|
                    if 0 <= i < self.members.len() {
                        self.members[i].model()
                    } else {
                        arbitrary()
                    },
            ),
        }
    }
}

impl CaseNode {
    pub open spec fn model(self) -> CaseView
        decreases self,
    {
        CaseView {
            name: self.name@,
            tref: match self.tref {
                Some(tref) => Some(tref.model()),
                None => None,
            },
        }
    }
}

impl VariantNode {
    pub open spec fn model(self) -> VariantView
        decreases self,
    {
        VariantView {
            tag_repr: self.tag_repr,
            cases: Seq::new(
                self.cases.len() as nat,
                |i: int|
                    if 0 <= i < self.cases.len() {
                        self.cases[i].model()
                    } else {
                        arbitrary()
                    },
            ),
            option_shaped: self.option_shaped,
            payload_offset: self.payload_offset as nat,
            mem_size: self.mem_size as nat,
            tag_size: self.tag_size as nat,
        }
    }
}

impl View for TypeRef {
    type V = TypeRefView;

    open spec fn view(&self) -> TypeRefView {
        self.model()
    }
}

impl View for TypeNode {
    type V = TypeNodeView;

    open spec fn view(&self) -> TypeNodeView {
        self.model()
    }
}

impl View for MemberNode {
    type V = MemberView;

    open spec fn view(&self) -> MemberView {
        self.model()
    }
}

impl View for RecordNode {
    type V = RecordView;

    open spec fn view(&self) -> RecordView {
        self.model()
    }
}

impl View for CaseNode {
    type V = CaseView;

    open spec fn view(&self) -> CaseView {
        self.model()
    }
}

impl View for VariantNode {
    type V = VariantView;

    open spec fn view(&self) -> VariantView {
        self.model()
    }
}

/// The views of a list of cases, in order.
pub open spec fn case_views(cases: Seq<CaseNode>) -> Seq<CaseView> {
    cases.map_values(|case: CaseNode| case@)
}

impl IntRepr {
    /// The number of bytes of the integer type.
    pub open spec fn byte_width(self) -> nat {
        match self {
            IntRepr::U8 => 1,
            IntRepr::U16 => 2,
            IntRepr::U32 => 4,
            IntRepr::U64 => 8,
        }
    }
}

/// The shape `(variant (case "none") (case "some" ty))`.
pub open spec fn option_form(cases: Seq<CaseView>) -> bool {
    &&& cases.len() == 2
    &&& cases[0].name == "none"@
    &&& cases[0].tref is None
    &&& cases[1].name == "some"@
    &&& cases[1].tref is Some
}

impl CaseView {
    /// The payload of the case, if it has one, can be lowered.
    pub open spec fn well_formed(self) -> bool
        decreases self,
    {
        match self.tref {
            Some(tref) => tref.well_formed(),
            None => true,
        }
    }
}

impl VariantView {
    /// The shape `(variant (case "false") (case "true"))`.
    pub open spec fn is_bool(self) -> bool {
        &&& self.cases.len() == 2
        &&& self.cases[0].name == "false"@
        &&& self.cases[1].name == "true"@
        &&& self.cases[0].tref is None
        &&& self.cases[1].tref is None
    }

    /// No case has a payload.
    pub open spec fn is_enum(self) -> bool {
        forall|i: int| 0 <= i < self.cases.len() ==> (#[trigger] self.cases[i]).tref is None
    }

    /// The shape `(variant (case "ok" ok?) (case "err" err?))`.
    pub open spec fn is_expected(self) -> bool {
        &&& self.cases.len() == 2
        &&& self.cases[0].name == "ok"@
        &&& self.cases[1].name == "err"@
    }

    /// An optional value: the schema reports it as one, and the single case
    /// is the present one (the absent case is implied).
    pub open spec fn is_option(self) -> bool {
        self.option_shaped && self.cases.len() == 1
    }

    /// The category of the variant. The special shapes come first: a
    /// variant without payloads is an enumeration only if it is none of
    /// them, and a union is what is left.
    pub open spec fn shape(self) -> VariantShape {
        if self.is_bool() {
            VariantShape::Bool
        } else if self.is_option() {
            VariantShape::Option
        } else if self.is_expected() {
            VariantShape::Result
        } else if self.is_enum() {
            VariantShape::Enum
        } else {
            VariantShape::Union
        }
    }

    /// The variants that can be lowered: every payload can be, and the
    /// sizes that are subtracted from the size of the variant do not exceed
    /// it (the tag for a result or a union, the payload offset for a union).
    pub open spec fn well_formed(self) -> bool
        decreases self,
    {
        &&& forall|i: int|
            0 <= i < self.cases.len() ==> (#[trigger] self.cases[i]).well_formed()
        &&& self.shape() is Result || self.shape() is Union ==> self.tag_size <= self.mem_size
        &&& self.shape() is Union ==> self.payload_offset <= self.mem_size
    }
}

impl RecordView {
    /// The category of the record: flags where the schema reports a flag
    /// representation, else a tuple where it reports positional members,
    /// else a struct.
    pub open spec fn shape(self) -> RecordShape {
        match self.kind {
            RecordKind::Bitflags(_) => RecordShape::Constants,
            RecordKind::Tuple => RecordShape::Tuple,
            RecordKind::Other => RecordShape::Struct,
        }
    }

    /// The gap between the end of member `i` and the start of the next
    /// member; 0 for the last member.
    pub open spec fn padding(self, i: int) -> int {
        if 0 <= i < self.members.len() - 1 {
            self.members[i + 1].offset - self.members[i].offset - self.members[i].size
        } else {
            0
        }
    }

    /// The records that can be lowered: a set of flags has at most 64
    /// members, one bit of the value each; in a tuple or struct every
    /// member can be lowered and ends before the next one starts.
    pub open spec fn well_formed(self) -> bool
        decreases self,
    {
        match self.kind {
            RecordKind::Bitflags(_) => self.members.len() <= 64,
            _ => forall|i: int|
                0 <= i < self.members.len() ==> (#[trigger] self.members[i]).tref.well_formed()
                    && self.padding(i) >= 0,
        }
    }
}

impl TypeNodeView {
    /// The types that can be lowered: records and variants as above, and
    /// handles whose resource is named.
    pub open spec fn well_formed(self) -> bool
        decreases self,
    {
        match self {
            TypeNodeView::Record(record) => record.well_formed(),
            TypeNodeView::Variant(variant) => variant.well_formed(),
            TypeNodeView::Handle { resource_name } => resource_name is Some,
            TypeNodeView::List(tref) => tref.well_formed(),
            TypeNodeView::Pointer(tref) => tref.well_formed(),
            TypeNodeView::ConstPointer(tref) => tref.well_formed(),
            TypeNodeView::Builtin(_) => true,
            TypeNodeView::Buffer { out, tref } => tref.well_formed(),
        }
    }
}

impl TypeRefView {
    /// The type referred to can be lowered.
    pub open spec fn well_formed(self) -> bool
        decreases self,
    {
        match self {
            TypeRefView::Name { name, tref } => tref.well_formed(),
            TypeRefView::Value(node) => node.well_formed(),
        }
    }
}

/// `Layout::mem_size` of witx on an `IntRepr`: the size of the builtin
/// unsigned integer of that width, 1, 2, 4 or 8 bytes.
#[verifier::external_body]
fn witx_tag_size(repr: IntRepr) -> (size: usize)
    ensures
        size == repr.byte_width(),
{
    let outside = match repr {
        IntRepr::U8 => witx::IntRepr::U8,
        IntRepr::U16 => witx::IntRepr::U16,
        IntRepr::U32 => witx::IntRepr::U32,
        IntRepr::U64 => witx::IntRepr::U64,
    };
    witx::Layout::mem_size(&outside)
}

/// `Layout::mem_size` of witnext on an `IntRepr`, asked for the exported
/// layout: the size of the builtin unsigned integer of that width, 1, 2, 4
/// or 8 bytes.
#[verifier::external_body]
fn witnext_tag_size(repr: IntRepr) -> (size: usize)
    ensures
        size == repr.byte_width(),
{
    let outside = match repr {
        IntRepr::U8 => witnext::IntRepr::U8,
        IntRepr::U16 => witnext::IntRepr::U16,
        IntRepr::U32 => witnext::IntRepr::U32,
        IntRepr::U64 => witnext::IntRepr::U64,
    };
    witnext::Layout::mem_size(&outside, true)
}

/// Whether `name` reads exactly as `literal`.
fn name_is(name: &String, literal: &str) -> (same: bool)
    ensures
        same == (name@ == literal@),
{
    let wanted = String::from_str(literal);
    *name == wanted
}

/// The payload of an optional value, for a schema library that has no
/// predicate of its own for it: the payload of the second case where the
/// cases are a `none` without payload followed by a `some` with one.
pub fn variant_as_option(v: &VariantNode) -> (payload: Option<&TypeRef>)
    ensures
        payload is Some <==> option_form(v@.cases),
        payload matches Some(tref) ==> Some(*tref) == v.cases[1].tref,
{
    if v.cases.len() != 2 {
        return None;
    }
    if !name_is(&v.cases[0].name, "none") || v.cases[0].tref.is_some() {
        return None;
    }
    if !name_is(&v.cases[1].name, "some") {
        return None;
    }
    v.cases[1].tref.as_ref()
}

impl VariantNode {
    /// A variant as witx describes it. witx has no predicate for optional
    /// values, so the shape is found from the cases; the size of the tag is
    /// the one witx gives.
    pub fn from_witx(
        tag_repr: IntRepr,
        cases: Vec<CaseNode>,
        payload_offset: usize,
        mem_size: usize,
    ) -> (v: VariantNode)
        ensures
            v.cases == cases,
            v@ == (VariantView {
                tag_repr,
                cases: case_views(cases@),
                option_shaped: option_form(case_views(cases@)),
                payload_offset: payload_offset as nat,
                mem_size: mem_size as nat,
                tag_size: tag_repr.byte_width(),
            }),
    {
        let mut v = VariantNode {
            tag_repr,
            cases,
            option_shaped: false,
            payload_offset,
            mem_size,
            tag_size: witx_tag_size(tag_repr),
        };
        let found = variant_as_option(&v).is_some();
        v.option_shaped = found;
        assert(v@.cases =~= case_views(v.cases@));
        v
    }

    /// A variant as witnext describes it. `option_shaped` is the answer of
    /// witnext's own predicate for optional values; the size of the tag is
    /// the one witnext gives.
    pub fn from_witnext(
        tag_repr: IntRepr,
        cases: Vec<CaseNode>,
        option_shaped: bool,
        payload_offset: usize,
        mem_size: usize,
    ) -> (v: VariantNode)
        ensures
            v.cases == cases,
            v@ == (VariantView {
                tag_repr,
                cases: case_views(cases@),
                option_shaped,
                payload_offset: payload_offset as nat,
                mem_size: mem_size as nat,
                tag_size: tag_repr.byte_width(),
            }),
    {
        let v = VariantNode {
            tag_repr,
            cases,
            option_shaped,
            payload_offset,
            mem_size,
            tag_size: witnext_tag_size(tag_repr),
        };
        assert(v@.cases =~= case_views(v.cases@));
        v
    }

    /// Whether the variant is `(variant (case "false") (case "true"))`.
    pub fn bool_shaped(&self) -> (yes: bool)
        ensures
            yes == self@.is_bool(),
    {
        self.cases.len() == 2 && name_is(&self.cases[0].name, "false") && name_is(
            &self.cases[1].name,
            "true",
        ) && self.cases[0].tref.is_none() && self.cases[1].tref.is_none()
    }

    /// Whether no case has a payload.
    pub fn enum_shaped(&self) -> (yes: bool)
        ensures
            yes == self@.is_enum(),
    {
        let mut i: usize = 0;
        while i < self.cases.len()
            invariant
                i <= self.cases.len(),
                forall|j: int| 0 <= j < i ==> (#[trigger] self@.cases[j]).tref is None,
            decreases self.cases.len() - i,
        {
            if self.cases[i].tref.is_some() {
                assert(self@.cases[i as int].tref is Some);
                return false;
            }
            i += 1;
        }
        true
    }

    /// Whether the variant is `(variant (case "ok" ok?) (case "err" err?))`.
    pub fn expected_shaped(&self) -> (yes: bool)
        ensures
            yes == self@.is_expected(),
    {
        self.cases.len() == 2 && name_is(&self.cases[0].name, "ok") && name_is(
            &self.cases[1].name,
            "err",
        )
    }

    /// The category of the variant.
    pub fn classify(&self) -> (shape: VariantShape)
        ensures
            shape == self@.shape(),
    {
        if self.bool_shaped() {
            VariantShape::Bool
        } else if self.option_shaped && self.cases.len() == 1 {
            VariantShape::Option
        } else if self.expected_shaped() {
            VariantShape::Result
        } else if self.enum_shaped() {
            VariantShape::Enum
        } else {
            VariantShape::Union
        }
    }

    /// Whether the variant can be lowered.
    pub fn is_well_formed(&self) -> (ok: bool)
        ensures
            ok == self@.well_formed(),
        decreases self, 1nat,
    {
        let mut i: usize = 0;
        while i < self.cases.len()
            invariant
                i <= self.cases.len(),
                forall|j: int| 0 <= j < i ==> (#[trigger] self@.cases[j]).well_formed(),
            decreases self.cases.len() - i,
        {
            if !self.cases[i].is_well_formed() {
                assert(!self@.cases[i as int].well_formed());
                return false;
            }
            i += 1;
        }
        match self.classify() {
            VariantShape::Result => self.tag_size <= self.mem_size,
            VariantShape::Union => self.tag_size <= self.mem_size && self.payload_offset
                <= self.mem_size,
            _ => true,
        }
    }
}

impl CaseNode {
    /// Whether the payload of the case, if it has one, can be lowered.
    pub fn is_well_formed(&self) -> (ok: bool)
        ensures
            ok == self@.well_formed(),
        decreases self, 0nat,
    {
        match &self.tref {
            Some(tref) => tref.is_well_formed(),
            None => true,
        }
    }
}

impl RecordNode {
    /// The category of the record.
    pub fn classify(&self) -> (shape: RecordShape)
        ensures
            shape == self@.shape(),
    {
        match self.kind {
            RecordKind::Bitflags(_) => RecordShape::Constants,
            RecordKind::Tuple => RecordShape::Tuple,
            RecordKind::Other => RecordShape::Struct,
        }
    }

    /// Whether the record can be lowered.
    pub fn is_well_formed(&self) -> (ok: bool)
        ensures
            ok == self@.well_formed(),
        decreases self, 1nat,
    {
        match self.kind {
            RecordKind::Bitflags(_) => self.members.len() <= 64,
            _ => {
                let n = self.members.len();
                let mut i: usize = 0;
                while i < n
                    invariant
                        n == self.members.len(),
                        i <= n,
                        !(self.kind is Bitflags),
                        forall|j: int|
                            0 <= j < i ==> (#[trigger] self@.members[j]).tref.well_formed()
                                && self@.padding(j) >= 0,
                    decreases n - i,
                {
                    let member = &self.members[i];
                    if !member.tref.is_well_formed() {
                        assert(!self@.members[i as int].tref.well_formed());
                        return false;
                    }
                    if i + 1 < n {
                        let next = &self.members[i + 1];
                        if next.offset < member.offset || next.offset - member.offset
                            < member.size {
                            return false;
                        }
                    }
                    i += 1;
                }
                true
            },
        }
    }
}

impl TypeNode {
    /// Whether the type can be lowered.
    pub fn is_well_formed(&self) -> (ok: bool)
        ensures
            ok == self@.well_formed(),
        decreases self, 2nat,
    {
        match self {
            TypeNode::Record(record) => record.is_well_formed(),
            TypeNode::Variant(variant) => variant.is_well_formed(),
            TypeNode::Handle(handle) => handle.resource_name.is_some(),
            TypeNode::List(tref) => tref.is_well_formed(),
            TypeNode::Pointer(tref) => tref.is_well_formed(),
            TypeNode::ConstPointer(tref) => tref.is_well_formed(),
            TypeNode::Builtin(_) => true,
            TypeNode::Buffer(buffer) => buffer.tref.is_well_formed(),
        }
    }
}

impl TypeRef {
    /// Whether the type referred to can be lowered.
    pub fn is_well_formed(&self) -> (ok: bool)
        ensures
            ok == self@.well_formed(),
        decreases self, 2nat,
    {
        match self {
            TypeRef::Name(named) => named.tref.is_well_formed(),
            TypeRef::Value(node) => node.is_well_formed(),
        }
    }
}

} // verus!

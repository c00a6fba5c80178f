//! The canonical type model: a closed set of type variants that carry the
//! layout facts a binding generator needs, and the two operations consumers
//! use on them, `leaf` and `decompose`.
//!
//! Every executable type has a mathematical view (`TypeView` and friends) in
//! which names are sequences of characters, sizes and offsets are naturals
//! and member lists are sequences. All contracts are stated over the views.

use std::rc::Rc;
use vstd::prelude::*;
use vstd::string::StringExecFns;

verus! {

/// Top level decoded module.
#[derive(Clone, Debug, PartialEq, Eq)]
pub struct ASModule {
    pub name: String,
}

/// A name given to a type, kept independently of where the type is used.
#[derive(Clone, Debug, PartialEq, Eq)]
pub struct ASAlias {
    pub name: String,
    pub type_: Rc<ASType>,
}

/// A named member of a struct. `padding` is the gap between the end of this
/// member and the start of the next one; it is 0 for the last member.
#[derive(Clone, Debug, PartialEq, Eq)]
pub struct ASStructMember {
    pub name: String,
    pub offset: usize,
    pub type_: Rc<ASType>,
    pub padding: usize,
}

/// One choice of an enumeration. `value` is the zero-based position of the
/// choice in its declaration.
#[derive(Clone, Debug, PartialEq, Eq)]
pub struct ASEnumChoice {
    pub name: String,
    pub value: usize,
}

#[derive(Clone, Debug, PartialEq, Eq)]
pub struct ASEnum {
    pub repr: Rc<ASType>,
    pub choices: Vec<ASEnumChoice>,
}

/// One case of a tagged union; `type_` is `Void` for a case without payload.
#[derive(Clone, Debug, PartialEq, Eq)]
pub struct ASUnionMember {
    pub name: String,
    pub type_: Rc<ASType>,
}

#[derive(Clone, Debug, PartialEq, Eq)]
pub struct ASUnion {
    pub tag_repr: Rc<ASType>,
    pub members: Vec<ASUnionMember>,
    pub member_offset: usize,
    pub padding_after_tag: usize,
    pub max_member_size: usize,
}

/// A positional member of a tuple. `padding` is as for `ASStructMember`.
#[derive(Clone, Debug, PartialEq, Eq)]
pub struct ASTupleMember {
    pub type_: Rc<ASType>,
    pub offset: usize,
    pub padding: usize,
}

#[derive(Clone, Debug, PartialEq, Eq)]
pub struct ASOption {
    pub tag_repr: Rc<ASType>,
    pub type_: Rc<ASType>,
    pub offset: usize,
}

#[derive(Clone, Debug, PartialEq, Eq)]
pub struct ASResult {
    pub tag_repr: Rc<ASType>,
    pub error_type: Rc<ASType>,
    pub ok_type: Rc<ASType>,
    pub result_offset: usize,
    pub padding_after_tag: usize,
}

/// One flag of a set of constants. `value` is `1 << position`.
#[derive(Clone, Debug, PartialEq, Eq)]
pub struct ASConstant {
    pub name: String,
    pub value: u64,
}

#[derive(Clone, Debug, PartialEq, Eq)]
pub struct ASConstants {
    pub repr: Rc<ASType>,
    pub constants: Vec<ASConstant>,
}

#[derive(Debug, PartialEq, Eq)]
pub enum ASType {
    Void,
    Alias(ASAlias),
    Bool,
    Char8,
    Char32,
    USize,
    F32,
    F64,
    S8,
    S16,
    S32,
    S64,
    U8,
    U16,
    U32,
    U64,
    Constants(ASConstants),
    Result(ASResult),
    Option(ASOption),
    Handle(String),
    Enum(ASEnum),
    Tuple(Vec<ASTupleMember>),
    ConstPtr(Rc<ASType>),
    MutPtr(Rc<ASType>),
    Union(ASUnion),
    Struct(Vec<ASStructMember>),
    Slice(Rc<ASType>),
    String(Rc<ASType>),
    ReadBuffer(Rc<ASType>),
    WriteBuffer(Rc<ASType>),
}

/// One parameter of a flat signature.
pub struct ASTypeDecomposed {
    pub name: String,
    pub type_: Rc<ASType>,
}

pub struct StructMemberView {
    pub name: Seq<char>,
    pub offset: nat,
    pub ty: TypeView,
    pub padding: nat,
}

pub struct TupleMemberView {
    pub ty: TypeView,
    pub offset: nat,
    pub padding: nat,
}

pub struct EnumChoiceView {
    pub name: Seq<char>,
    pub value: nat,
}

pub struct UnionMemberView {
    pub name: Seq<char>,
    pub ty: TypeView,
}

pub struct ConstantView {
    pub name: Seq<char>,
    pub value: nat,
}

/// What an `ASType` stands for.
#[allow(inconsistent_fields)]
pub enum TypeView {
    Void,
    Alias { name: Seq<char>, target: Box<TypeView> },
    Bool,
    Char8,
    Char32,
    USize,
    F32,
    F64,
    S8,
    S16,
    S32,
    S64,
    U8,
    U16,
    U32,
    U64,
    Constants { repr: Box<TypeView>, constants: Seq<ConstantView> },
    Result {
        tag_repr: Box<TypeView>,
        error_type: Box<TypeView>,
        ok_type: Box<TypeView>,
        result_offset: nat,
        padding_after_tag: nat,
    },
    Option { tag_repr: Box<TypeView>, ty: Box<TypeView>, offset: nat },
    Handle { resource: Seq<char> },
    Enum { repr: Box<TypeView>, choices: Seq<EnumChoiceView> },
    Tuple { members: Seq<TupleMemberView> },
    ConstPtr { target: Box<TypeView> },
    MutPtr { target: Box<TypeView> },
    Union {
        tag_repr: Box<TypeView>,
        members: Seq<UnionMemberView>,
        member_offset: nat,
        padding_after_tag: nat,
        max_member_size: nat,
    },
    Struct { members: Seq<StructMemberView> },
    Slice { element: Box<TypeView> },
    String { element: Box<TypeView> },
    ReadBuffer { element: Box<TypeView> },
    WriteBuffer { element: Box<TypeView> },
}

/// What an `ASTypeDecomposed` stands for.
pub struct ParameterView {
    pub name: Seq<char>,
    pub ty: TypeView,
}

impl ASStructMember {
    pub open spec fn model(self) -> StructMemberView
        decreases self,
    {
        StructMemberView {
            name: self.name@,
            offset: self.offset as nat,
            ty: (*self.type_).model(),
            padding: self.padding as nat,
        }
    }
}

impl ASTupleMember {
    pub open spec fn model(self) -> TupleMemberView
        decreases self,
    {
        TupleMemberView {
            ty: (*self.type_).model(),
            offset: self.offset as nat,
            padding: self.padding as nat,
        }
    }
}

impl ASUnionMember {
    pub open spec fn model(self) -> UnionMemberView
        decreases self,
    {
        UnionMemberView { name: self.name@, ty: (*self.type_).model() }
    }
}

impl ASType {
    /// The view, written as an inherent function so that it can recurse.
    pub open spec fn model(self) -> TypeView
        decreases self,
    {
        match self {
            ASType::Void => TypeView::Void,
            ASType::Alias(a) => TypeView::Alias {
                name: a.name@,
                target: Box::new((*a.type_).model()),
            },
            ASType::Bool => TypeView::Bool,
            ASType::Char8 => TypeView::Char8,
            ASType::Char32 => TypeView::Char32,
            ASType::USize => TypeView::USize,
            ASType::F32 => TypeView::F32,
            ASType::F64 => TypeView::F64,
            ASType::S8 => TypeView::S8,
            ASType::S16 => TypeView::S16,
            ASType::S32 => TypeView::S32,
            ASType::S64 => TypeView::S64,
            ASType::U8 => TypeView::U8,
            ASType::U16 => TypeView::U16,
            ASType::U32 => TypeView::U32,
            ASType::U64 => TypeView::U64,
            ASType::Constants(c) => TypeView::Constants {
                repr: Box::new((*c.repr).model()),
                constants: c.constants@.map_values(|k: ASConstant| k@),
            },
            ASType::Result(r) => TypeView::Result {
                tag_repr: Box::new((*r.tag_repr).model()),
                error_type: Box::new((*r.error_type).model()),
                ok_type: Box::new((*r.ok_type).model()),
                result_offset: r.result_offset as nat,
                padding_after_tag: r.padding_after_tag as nat,
            },
            ASType::Option(o) => TypeView::Option {
                tag_repr: Box::new((*o.tag_repr).model()),
                ty: Box::new((*o.type_).model()),
                offset: o.offset as nat,
            },
            ASType::Handle(name) => TypeView::Handle { resource: name@ },
            ASType::Enum(e) => TypeView::Enum {
                repr: Box::new((*e.repr).model()),
                choices: e.choices@.map_values(|c: ASEnumChoice| c@),
            },
            ASType::Tuple(members) => TypeView::Tuple {
                members: Seq::new(
                    members.len() as nat,
                    |i: int|
                        if 0 <= i < members.len() {
                            members[i].model()
                        } else {
                            arbitrary()
                        },
                ),
            },
            ASType::ConstPtr(t) => TypeView::ConstPtr { target: Box::new((*t).model()) },
            ASType::MutPtr(t) => TypeView::MutPtr { target: Box::new((*t).model()) },
            ASType::Union(u) => TypeView::Union {
                tag_repr: Box::new((*u.tag_repr).model()),
                members: Seq::new(
                    u.members.len() as nat,
                    |i: int|
                        if 0 <= i < u.members.len() {
                            u.members[i].model()
                        } else {
                            arbitrary()
                        },
                ),
                member_offset: u.member_offset as nat,
                padding_after_tag: u.padding_after_tag as nat,
                max_member_size: u.max_member_size as nat,
            },
            ASType::Struct(members) => TypeView::Struct {
                members: Seq::new(
                    members.len() as nat,
                    |i: int|
                        if 0 <= i < members.len() {
                            members[i].model()
                        } else {
                            arbitrary()
                        },
                ),
            },
            ASType::Slice(t) => TypeView::Slice { element: Box::new((*t).model()) },
            ASType::String(t) => TypeView::String { element: Box::new((*t).model()) },
            ASType::ReadBuffer(t) => TypeView::ReadBuffer { element: Box::new((*t).model()) },
            ASType::WriteBuffer(t) => TypeView::WriteBuffer { element: Box::new((*t).model()) },
        }
    }
}

impl View for ASStructMember {
    type V = StructMemberView;

    open spec fn view(&self) -> StructMemberView {
        self.model()
    }
}

impl View for ASTupleMember {
    type V = TupleMemberView;

    open spec fn view(&self) -> TupleMemberView {
        self.model()
    }
}

impl View for ASUnionMember {
    type V = UnionMemberView;

    open spec fn view(&self) -> UnionMemberView {
        self.model()
    }
}

impl View for ASEnumChoice {
    type V = EnumChoiceView;

    open spec fn view(&self) -> EnumChoiceView {
        EnumChoiceView { name: self.name@, value: self.value as nat }
    }
}

impl View for ASConstant {
    type V = ConstantView;

    open spec fn view(&self) -> ConstantView {
        ConstantView { name: self.name@, value: self.value as nat }
    }
}

impl View for ASType {
    type V = TypeView;

    open spec fn view(&self) -> TypeView {
        self.model()
    }
}

impl View for ASTypeDecomposed {
    type V = ParameterView;

    open spec fn view(&self) -> ParameterView {
        ParameterView { name: self.name@, ty: (*self.type_)@ }
    }
}

/// The views of a parameter list, in order.
pub open spec fn parameter_views(list: Seq<ASTypeDecomposed>) -> Seq<ParameterView> {
    list.map_values(|p: ASTypeDecomposed| p@)
}

impl TypeView {
    /// The type with one level of alias removed: the target of an alias,
    /// and any other type as it is. The target of an alias is not looked
    /// into again.
    pub open spec fn leaf(self) -> TypeView {
        match self {
            TypeView::Alias { name, target } => *target,
            _ => self,
        }
    }

    /// The element type of the four kinds that are passed as a pointer and
    /// a length.
    pub open spec fn element(self) -> Option<TypeView> {
        match self {
            TypeView::ReadBuffer { element } => Some(*element),
            TypeView::WriteBuffer { element } => Some(*element),
            TypeView::Slice { element } => Some(*element),
            TypeView::String { element } => Some(*element),
            _ => None,
        }
    }

    /// The flat parameters that pass a value of this type under the name
    /// `name`.
    ///
    /// A type whose leaf is `Void` takes no parameter. With
    /// `as_mut_pointers` any other type is passed as one mutable pointer to
    /// the type itself. Without it, a buffer, slice or string is split into
    /// a pointer to its elements (mutable only for a write buffer) named
    /// `name_ptr` and a pointer-sized length named `name_len`; any other
    /// type is passed as it is.
    pub open spec fn decompose(self, name: Seq<char>, as_mut_pointers: bool) -> Seq<
        ParameterView,
    > {
        let leaf = self.leaf();
        if leaf is Void {
            Seq::empty()
        } else if as_mut_pointers {
            seq![ParameterView { name, ty: TypeView::MutPtr { target: Box::new(self) } }]
        } else if leaf.element() is Some {
            let element = Box::new(leaf.element()->Some_0);
            let pointer = if leaf is WriteBuffer {
                TypeView::MutPtr { target: element }
            } else {
                TypeView::ConstPtr { target: element }
            };
            seq![
                ParameterView { name: name + "_ptr"@, ty: pointer },
                ParameterView { name: name + "_len"@, ty: TypeView::USize },
            ]
        } else {
            seq![ParameterView { name, ty: self }]
        }
    }
}

/// `Rc::clone` of std: a second pointer to the allocation of the first, so
/// the value behind the result is the value behind the argument.
#[verifier::external_body]
fn share<T>(rc: &Rc<T>) -> (other: Rc<T>)
    ensures
        other == *rc,
{
    Rc::clone(rc)
}

fn clone_constants(list: &Vec<ASConstant>) -> (copy: Vec<ASConstant>)
    ensures
        copy@ == list@,
{
    let mut copy: Vec<ASConstant> = Vec::new();
    let mut i: usize = 0;
    while i < list.len()
        invariant
            i <= list.len(),
            copy@ == list@.take(i as int),
        decreases list.len() - i,
    {
        copy.push(ASConstant { name: list[i].name.clone(), value: list[i].value });
        i += 1;
    }
    copy
}

fn clone_choices(list: &Vec<ASEnumChoice>) -> (copy: Vec<ASEnumChoice>)
    ensures
        copy@ == list@,
{
    let mut copy: Vec<ASEnumChoice> = Vec::new();
    let mut i: usize = 0;
    while i < list.len()
        invariant
            i <= list.len(),
            copy@ == list@.take(i as int),
        decreases list.len() - i,
    {
        copy.push(ASEnumChoice { name: list[i].name.clone(), value: list[i].value });
        i += 1;
    }
    copy
}

fn clone_tuple_members(list: &Vec<ASTupleMember>) -> (copy: Vec<ASTupleMember>)
    ensures
        copy@ == list@,
{
    let mut copy: Vec<ASTupleMember> = Vec::new();
    let mut i: usize = 0;
    while i < list.len()
        invariant
            i <= list.len(),
            copy@ == list@.take(i as int),
        decreases list.len() - i,
    {
        copy.push(
            ASTupleMember {
                type_: share(&list[i].type_),
                offset: list[i].offset,
                padding: list[i].padding,
            },
        );
        i += 1;
    }
    copy
}

fn clone_union_members(list: &Vec<ASUnionMember>) -> (copy: Vec<ASUnionMember>)
    ensures
        copy@ == list@,
{
    let mut copy: Vec<ASUnionMember> = Vec::new();
    let mut i: usize = 0;
    while i < list.len()
        invariant
            i <= list.len(),
            copy@ == list@.take(i as int),
        decreases list.len() - i,
    {
        copy.push(ASUnionMember { name: list[i].name.clone(), type_: share(&list[i].type_) });
        i += 1;
    }
    copy
}

fn clone_struct_members(list: &Vec<ASStructMember>) -> (copy: Vec<ASStructMember>)
    ensures
        copy@ == list@,
{
    let mut copy: Vec<ASStructMember> = Vec::new();
    let mut i: usize = 0;
    while i < list.len()
        invariant
            i <= list.len(),
            copy@ == list@.take(i as int),
        decreases list.len() - i,
    {
        copy.push(
            ASStructMember {
                name: list[i].name.clone(),
                offset: list[i].offset,
                type_: share(&list[i].type_),
                padding: list[i].padding,
            },
        );
        i += 1;
    }
    copy
}

impl Clone for ASType {
    /// A copy that stands for the same type. Sub-types are shared between
    /// the two, not copied.
    fn clone(&self) -> (copy: Self)
        ensures
            copy@ == self@,
    {
        match self {
            ASType::Void => ASType::Void,
            ASType::Alias(a) => ASType::Alias(
                ASAlias { name: a.name.clone(), type_: share(&a.type_) },
            ),
            ASType::Bool => ASType::Bool,
            ASType::Char8 => ASType::Char8,
            ASType::Char32 => ASType::Char32,
            ASType::USize => ASType::USize,
            ASType::F32 => ASType::F32,
            ASType::F64 => ASType::F64,
            ASType::S8 => ASType::S8,
            ASType::S16 => ASType::S16,
            ASType::S32 => ASType::S32,
            ASType::S64 => ASType::S64,
            ASType::U8 => ASType::U8,
            ASType::U16 => ASType::U16,
            ASType::U32 => ASType::U32,
            ASType::U64 => ASType::U64,
            ASType::Constants(c) => ASType::Constants(
                ASConstants { repr: share(&c.repr), constants: clone_constants(&c.constants) },
            ),
            ASType::Result(r) => ASType::Result(
                ASResult {
                    tag_repr: share(&r.tag_repr),
                    error_type: share(&r.error_type),
                    ok_type: share(&r.ok_type),
                    result_offset: r.result_offset,
                    padding_after_tag: r.padding_after_tag,
                },
            ),
            ASType::Option(o) => ASType::Option(
                ASOption {
                    tag_repr: share(&o.tag_repr),
                    type_: share(&o.type_),
                    offset: o.offset,
                },
            ),
            ASType::Handle(name) => ASType::Handle(name.clone()),
            ASType::Enum(e) => ASType::Enum(
                ASEnum { repr: share(&e.repr), choices: clone_choices(&e.choices) },
            ),
            ASType::Tuple(members) => ASType::Tuple(clone_tuple_members(members)),
            ASType::ConstPtr(t) => ASType::ConstPtr(share(t)),
            ASType::MutPtr(t) => ASType::MutPtr(share(t)),
            ASType::Union(u) => ASType::Union(
                ASUnion {
                    tag_repr: share(&u.tag_repr),
                    members: clone_union_members(&u.members),
                    member_offset: u.member_offset,
                    padding_after_tag: u.padding_after_tag,
                    max_member_size: u.max_member_size,
                },
            ),
            ASType::Struct(members) => ASType::Struct(clone_struct_members(members)),
            ASType::Slice(t) => ASType::Slice(share(t)),
            ASType::String(t) => ASType::String(share(t)),
            ASType::ReadBuffer(t) => ASType::ReadBuffer(share(t)),
            ASType::WriteBuffer(t) => ASType::WriteBuffer(share(t)),
        }
    }
}

impl ASType {
    /// The type with one level of alias removed.
    pub fn leaf(&self) -> (leaf: &ASType)
        ensures
            leaf@ == self@.leaf(),
            *leaf == (match *self {
                ASType::Alias(alias) => *alias.type_,
                _ => *self,
            }),
    {
        if let ASType::Alias(alias) = self {
            &*alias.type_
        } else {
            self
        }
    }

    /// The flat parameters that pass a value of this type under `name`.
    pub fn decompose(&self, name: &str, as_mut_pointers: bool) -> (parameters: Vec<
        ASTypeDecomposed,
    >)
        ensures
            parameter_views(parameters@) == self@.decompose(name@, as_mut_pointers),
    {
        let leaf = self.leaf();
        let mut parameters: Vec<ASTypeDecomposed> = Vec::new();
        if as_mut_pointers {
            match leaf {
                ASType::Void => {},
                _ => {
                    parameters.push(
                        ASTypeDecomposed {
                            name: String::from_str(name),
                            type_: Rc::new(ASType::MutPtr(Rc::new(self.clone()))),
                        },
                    );
                },
            }
            return parameters;
        }
        match leaf {
            ASType::Void => {},
            ASType::ReadBuffer(elements_type)
            | ASType::Slice(elements_type)
            | ASType::String(elements_type) => {
                parameters.push(
                    ASTypeDecomposed {
                        name: String::from_str(name).concat("_ptr"),
                        type_: Rc::new(ASType::ConstPtr(share(elements_type))),
                    },
                );
                parameters.push(
                    ASTypeDecomposed {
                        name: String::from_str(name).concat("_len"),
                        type_: Rc::new(ASType::USize),
                    },
                );
            },
            ASType::WriteBuffer(elements_type) => {
                parameters.push(
                    ASTypeDecomposed {
                        name: String::from_str(name).concat("_ptr"),
                        type_: Rc::new(ASType::MutPtr(share(elements_type))),
                    },
                );
                parameters.push(
                    ASTypeDecomposed {
                        name: String::from_str(name).concat("_len"),
                        type_: Rc::new(ASType::USize),
                    },
                );
            },
            _ => {
                parameters.push(
                    ASTypeDecomposed { name: String::from_str(name), type_: Rc::new(self.clone()) },
                );
            },
        }
        parameters
    }
}

} // verus!

//! What holds of every lowered type and of every flat signature, stated
//! over the same functions that the contracts of the executable code use.

use crate::astype::{ParameterView, TypeView};
use crate::schema::{RecordView, VariantShape, VariantView};
use vstd::arithmetic::power2::{lemma2_to64, lemma_pow2_strictly_increases, pow2};
use vstd::prelude::*;

verus! {

/// A record of flags with N members is lowered to N constants, in the order
/// of the members and under their names, and constant `i` has the value
/// `2^i`: 1, 2, 4 and so on.
pub proof fn lemma_flags_are_powers_of_two(record: RecordView)
    requires
        record.kind is Bitflags,
    ensures
        record.lowered() is Constants,
        record.lowered()->constants.len() == record.members.len(),
        forall|i: int|
            0 <= i < record.members.len() ==> {
                &&& (#[trigger] record.lowered()->constants[i]).name == record.members[i].name
                &&& record.lowered()->constants[i].value == pow2(i as nat)
            },
        record.members.len() >= 1 ==> record.lowered()->constants[0].value == 1,
{
    lemma2_to64();
}

/// The values of the constants of a record of flags grow strictly with the
/// position of the member, and with at most 64 members each fits in 64
/// bits.
pub proof fn lemma_flags_strictly_increase(record: RecordView, i: int, j: int)
    requires
        record.kind is Bitflags,
        0 <= i < j < record.members.len(),
    ensures
        record.lowered()->constants[i].value < record.lowered()->constants[j].value,
        record.well_formed() ==> record.lowered()->constants[j].value <= u64::MAX,
{
    lemma_pow2_strictly_increases(i as nat, j as nat);
    if record.well_formed() {
        lemma2_to64();
        lemma_pow2_strictly_increases(j as nat, 64);
    }
}

/// A variant that is lowered to an enumeration has one choice for each case,
/// in the order of the cases and under their names, and choice `i` has the
/// value `i`.
pub proof fn lemma_enum_values_are_positions(variant: VariantView)
    requires
        variant.shape() is Enum,
    ensures
        variant.lowered() is Enum,
        variant.lowered()->Enum_repr == Box::new(variant.tag_repr.lowered()),
        variant.lowered()->choices.len() == variant.cases.len(),
        forall|i: int|
            0 <= i < variant.cases.len() ==> {
                &&& (#[trigger] variant.lowered()->choices[i]).name == variant.cases[i].name
                &&& variant.lowered()->choices[i].value == i
            },
{
}

/// A variant of the two cases `false` and `true`, in that order and without
/// payloads, is the boolean type, and never an enumeration.
pub proof fn lemma_false_true_is_bool(variant: VariantView)
    requires
        variant.cases.len() == 2,
        variant.cases[0].name == "false"@,
        variant.cases[1].name == "true"@,
        variant.cases[0].tref is None,
        variant.cases[1].tref is None,
    ensures
        variant.shape() is Bool,
        variant.lowered() == TypeView::Bool,
{
}

/// A variant that the schema reports as optional and that has the present
/// case as its only case is lowered to an option: of the lowered payload of
/// that case, or of `Void` where the case has no payload. The offset is the
/// payload offset that the schema reports.
pub proof fn lemma_single_present_case_is_option(variant: VariantView)
    requires
        variant.option_shaped,
        variant.cases.len() == 1,
    ensures
        variant.shape() is Option,
        variant.lowered() == (TypeView::Option {
            tag_repr: Box::new(variant.tag_repr.lowered()),
            ty: Box::new(
                match variant.cases[0].tref {
                    Some(tref) => tref.lowered(),
                    None => TypeView::Void,
                },
            ),
            offset: variant.payload_offset as nat,
        }),
{
}

/// A variant is lowered to a result exactly if it has two cases, the first
/// named `ok` and the second named `err`. With the names in another order,
/// or with other names, it never is.
pub proof fn lemma_result_iff_ok_err(variant: VariantView)
    ensures
        variant.shape() is Result <==> variant.cases.len() == 2 && variant.cases[0].name == "ok"@
            && variant.cases[1].name == "err"@,
        variant.shape() is Result ==> variant.lowered() is Result,
{
    reveal_strlit("ok");
    reveal_strlit("false");
    if variant.is_expected() {
        assert("false"@.len() == 5);
    }
}

/// A variant with a payload that has neither the shape of an option nor
/// that of a result is lowered to a tagged union, with one member for each
/// case.
pub proof fn lemma_other_payloads_are_union(variant: VariantView, i: int)
    requires
        0 <= i < variant.cases.len(),
        variant.cases[i].tref is Some,
        !variant.is_option(),
        !variant.is_expected(),
    ensures
        variant.shape() is Union,
        variant.lowered() is Union,
        variant.lowered()->Union_members.len() == variant.cases.len(),
{
}

/// In a lowered struct, member `i` keeps its offset, and its padding is the
/// gap between its end and the start of member `i + 1`; the padding of the
/// last member is 0. This holds where the gap is not negative.
pub proof fn lemma_struct_padding(record: RecordView, i: int)
    requires
        record.kind is Other,
        0 <= i < record.members.len(),
        record.padding(i) >= 0,
    ensures
        record.lowered() is Struct,
        record.lowered()->Struct_members.len() == record.members.len(),
        record.lowered()->Struct_members[i].offset == record.members[i].offset,
        i < record.members.len() - 1 ==> record.lowered()->Struct_members[i].padding
            == record.members[i + 1].offset - record.members[i].offset - record.members[i].size,
        i == record.members.len() - 1 ==> record.lowered()->Struct_members[i].padding == 0,
{
}

/// In a lowered tuple, member `i` keeps its offset, and its padding is the
/// gap between its end and the start of member `i + 1`; the padding of the
/// last member is 0. This holds where the gap is not negative.
pub proof fn lemma_tuple_padding(record: RecordView, i: int)
    requires
        record.kind is Tuple,
        0 <= i < record.members.len(),
        record.padding(i) >= 0,
    ensures
        record.lowered() is Tuple,
        record.lowered()->Tuple_members.len() == record.members.len(),
        record.lowered()->Tuple_members[i].offset == record.members[i].offset,
        i < record.members.len() - 1 ==> record.lowered()->Tuple_members[i].padding
            == record.members[i + 1].offset - record.members[i].offset - record.members[i].size,
        i == record.members.len() - 1 ==> record.lowered()->Tuple_members[i].padding == 0,
{
}

/// In a lowered tuple or struct of a record that can be lowered, a member,
/// its size and its padding reach exactly to the next member: offsets never
/// decrease, and the padding is all that lies between two members.
pub proof fn lemma_padding_fills_the_gap(record: RecordView, i: int)
    requires
        record.well_formed(),
        0 <= i < record.members.len() - 1,
    ensures
        record.kind is Tuple ==> record.lowered()->Tuple_members[i].offset
            + record.members[i].size + record.lowered()->Tuple_members[i].padding
            == record.lowered()->Tuple_members[i + 1].offset,
        record.kind is Other ==> record.lowered()->Struct_members[i].offset
            + record.members[i].size + record.lowered()->Struct_members[i].padding
            == record.lowered()->Struct_members[i + 1].offset,
{
    assert(record.kind !is Bitflags ==> record.members[i].tref.well_formed() && record.padding(i)
        >= 0);
}

/// Whether the schema reports a variant as optional matters only for a
/// variant of one case: two variants that differ in nothing else and do
/// not have exactly one case are lowered to the same type, and one can be
/// lowered if the other can. So schema libraries that disagree on the
/// report, or that find it in different ways, still agree on the type.
pub proof fn lemma_optional_report_matters_for_one_case_only(a: VariantView, b: VariantView)
    requires
        a.tag_repr == b.tag_repr,
        a.cases == b.cases,
        a.payload_offset == b.payload_offset,
        a.mem_size == b.mem_size,
        a.tag_size == b.tag_size,
        a.cases.len() != 1,
    ensures
        a.shape() == b.shape(),
        a.well_formed() == b.well_formed(),
        a.lowered() == b.lowered(),
{
    assert(a.is_enum() == b.is_enum());
    match a.shape() {
        VariantShape::Enum => {
            assert(a.lowered()->Enum_choices =~= b.lowered()->Enum_choices);
        },
        VariantShape::Union => {
            assert(a.lowered()->Union_members =~= b.lowered()->Union_members);
        },
        _ => {},
    }
}

/// A type whose leaf is `Void` takes no parameter, under any name and with
/// either way of passing.
pub proof fn lemma_void_takes_no_parameter(t: TypeView, name: Seq<char>, as_mut_pointers: bool)
    requires
        t.leaf() is Void,
    ensures
        t.decompose(name, as_mut_pointers) == Seq::<ParameterView>::empty(),
{
}

/// Any type whose leaf is not `Void` is passed by mutable pointer as one
/// parameter, which has the name asked for and points to the type itself,
/// alias included.
pub proof fn lemma_mut_pointer_is_one_parameter(t: TypeView, name: Seq<char>)
    requires
        !(t.leaf() is Void),
    ensures
        t.decompose(name, true) == seq![
            ParameterView { name, ty: TypeView::MutPtr { target: Box::new(t) } },
        ],
{
}

/// Split into a pointer and a length are exactly the types whose leaf is a
/// buffer, a slice or a string; every other type that is not `Void` is one
/// parameter of the type itself.
pub proof fn lemma_direct_parameter_count(t: TypeView, name: Seq<char>)
    ensures
        t.decompose(name, false).len() == (if t.leaf() is Void {
            0nat
        } else if t.leaf() is ReadBuffer || t.leaf() is WriteBuffer || t.leaf() is Slice
            || t.leaf() is String {
            2nat
        } else {
            1nat
        }),
{
}

} // verus!

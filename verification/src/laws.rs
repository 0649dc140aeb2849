//! What holds of every declaration and of every value converted.

use crate::derivation::{derived, DerivationModel};
use crate::discriminant::{effective, lemma_biggest, lemma_effective_all};
use crate::item::{declared_all, BodyModel, DiscriminantModel, ItemModel, VariantModel};
use crate::width::{lemma_widths_holding, IntWidth};
use vstd::prelude::*;

verus! {

/// Whether no variant declares a discriminant.
pub open spec fn all_implicit(variants: Seq<VariantModel>) -> bool {
    forall|i: int|
        0 <= i < variants.len() ==> (#[trigger] variants[i]).discriminant
            == DiscriminantModel::Implicit
}

/// Whether no two variants have the same discriminant.
pub open spec fn distinct(discriminants: Seq<u64>) -> bool {
    forall|i: int, j: int|
        0 <= i < j < discriminants.len() ==> discriminants[i] != discriminants[j]
}

/// Variants that declare no discriminant count up from the last variant
/// before them that declares one: if none of the variants after `from` up to
/// `to` declares a discriminant, the discriminant of `to` is that of `from`
/// plus the distance between them.
pub proof fn lemma_counts_up(declared: Seq<Option<u64>>, from: int, to: int)
    requires
        0 <= from <= to < declared.len(),
        forall|k: int| from < k <= to ==> declared[k] is None,
    ensures
        effective(declared, to) == effective(declared, from) + (to - from),
    decreases to - from,
{
    if from < to {
        lemma_counts_up(declared, from, to - 1);
    }
}

/// The discriminant of a variant is the one it declares. The discriminant of
/// a variant that declares none is one more than that of the variant before
/// it, and zero for the first variant.
pub proof fn lemma_discriminant_rule(item: ItemModel, i: int)
    requires
        item.supported(),
        item.body matches BodyModel::Enum(variants) && 0 <= i < variants.len(),
    ensures
        derived(item) is Ok,
        derived(item)->Ok_0.discriminants[i] as int == match item.body->Enum_0[i].discriminant.declared() {
            Some(value) => value as int,
            None => if i == 0 {
                0
            } else {
                derived(item)->Ok_0.discriminants[i - 1] + 1
            },
        },
{
    let declared = declared_all(item.body->Enum_0);
    lemma_effective_all(declared, i);
    if i > 0 {
        lemma_effective_all(declared, i - 1);
    }
}

/// The largest discriminant is the discriminant of some variant, and no
/// variant has a larger one.
pub proof fn lemma_biggest_discriminant(derivation: DerivationModel)
    requires
        derivation.wf(),
    ensures
        derivation.discriminants.contains(derivation.biggest()),
        forall|i: int|
            0 <= i < derivation.discriminants.len() ==> derivation.discriminants[i]
                <= derivation.biggest(),
{
    lemma_biggest(derivation.discriminants);
}

/// A conversion from an integer type is emitted exactly when the largest
/// value of the type is at least the largest discriminant, and then the type
/// holds the discriminant of every variant.
pub proof fn lemma_emitted_widths(derivation: DerivationModel, width: IntWidth)
    requires
        derivation.wf(),
    ensures
        derivation.widths().contains(width) <==> derivation.biggest() <= width.max(),
        derivation.widths().contains(width) ==> forall|i: int|
            0 <= i < derivation.discriminants.len() ==> derivation.discriminants[i] <= width.max(),
        forall|value: int|
            (#[trigger] derivation.convert(width, value)) is Some <==> derivation.biggest()
                <= width.max(),
{
    lemma_widths_holding(derivation.biggest() as int, width);
    lemma_biggest(derivation.discriminants);
}

/// A conversion from `u64` is always emitted.
pub proof fn lemma_u64_emitted(derivation: DerivationModel)
    ensures
        derivation.widths().contains(IntWidth::U64),
{
    lemma_widths_holding(derivation.biggest() as int, IntWidth::U64);
}

/// An emitted conversion returns a variant whose discriminant is the value
/// converted, and fails only for a value that is no variant's discriminant.
pub proof fn lemma_convert_sound(derivation: DerivationModel, width: IntWidth, value: int)
    requires
        derivation.widths().contains(width),
    ensures
        match derivation.convert(width, value) {
            Some(Ok(index)) => 0 <= index < derivation.discriminants.len()
                && derivation.discriminants[index] == value,
            Some(Err(_)) => forall|i: int|
                0 <= i < derivation.discriminants.len() ==> derivation.discriminants[i] != value,
            None => false,
        },
{
    if exists|index: int| derivation.picks(value, index) {
    } else {
        lemma_first_pick(derivation, value, derivation.discriminants.len() as int);
    }
}

/// Among the first `len` variants, either none has the discriminant `value`
/// or one of them is the first that has it.
proof fn lemma_first_pick(derivation: DerivationModel, value: int, len: int)
    requires
        0 <= len <= derivation.discriminants.len(),
    ensures
        (exists|index: int| index < len && derivation.picks(value, index)) || (forall|i: int|
            0 <= i < len ==> derivation.discriminants[i] != value),
    decreases len,
{
    if len > 0 {
        lemma_first_pick(derivation, value, len - 1);
        if forall|i: int| 0 <= i < len - 1 ==> derivation.discriminants[i] != value {
            if derivation.discriminants[len - 1] == value {
                assert(derivation.picks(value, len - 1));
            }
        } else {
            let index = choose|index: int| index < len - 1 && derivation.picks(value, index);
            assert(index < len && derivation.picks(value, index));
        }
    }
}

/// Where no two variants have the same discriminant, every emitted
/// conversion takes the discriminant of a variant back to that variant.
pub proof fn lemma_convert_discriminant(derivation: DerivationModel, width: IntWidth, index: int)
    requires
        derivation.widths().contains(width),
        distinct(derivation.discriminants),
        0 <= index < derivation.discriminants.len(),
    ensures
        derivation.convert(width, derivation.discriminants[index] as int) == Some(
            Ok::<int, ()>(index),
        ),
{
    let value = derivation.discriminants[index] as int;
    assert(derivation.picks(value, index));
    let chosen = choose|chosen: int| derivation.picks(value, chosen);
    derivation.lemma_picks_unique(value, chosen, index);
}

/// For an enum none of whose variants declares a discriminant, the
/// discriminants are 0, 1, 2 and so on, and every emitted conversion takes
/// each of these to its variant and fails for every other value.
pub proof fn lemma_implicit_enum(item: ItemModel, width: IntWidth, value: int)
    requires
        item.supported(),
        item.body matches BodyModel::Enum(variants) && variants.len() > 0 && all_implicit(
            variants,
        ),
    ensures
        derived(item) is Ok,
        forall|i: int|
            0 <= i < item.body->Enum_0.len() ==> derived(item)->Ok_0.discriminants[i] == i,
        derived(item)->Ok_0.widths().contains(width) ==> derived(item)->Ok_0.convert(width, value)
            == if 0 <= value < item.body->Enum_0.len() {
            Some(Ok::<int, ()>(value))
        } else {
            Some(Err::<int, ()>(()))
        },
{
    let variants = item.body->Enum_0;
    let declared = declared_all(variants);
    let derivation = derived(item)->Ok_0;
    assert forall|i: int| 0 <= i < derivation.discriminants.len() implies derivation.discriminants[i]
        == i by {
        assert(forall|k: int| 0 < k <= i ==> declared[k] is None);
        lemma_counts_up(declared, 0, i);
        lemma_effective_all(declared, i);
    }
    if derivation.widths().contains(width) {
        if 0 <= value < derivation.discriminants.len() {
            assert(derivation.picks(value, value));
            let chosen = choose|chosen: int| derivation.picks(value, chosen);
            derivation.lemma_picks_unique(value, chosen, value);
        }
    }
}

} // verus!

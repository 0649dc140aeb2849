//! The integer types a conversion can be derived for.

use vstd::prelude::*;

verus! {

/// A primitive integer type that can be the source of a conversion.
#[derive(Clone, Copy, Debug, PartialEq, Eq, Hash, Structural)]
pub enum IntWidth {
    U8,
    U16,
    U32,
    Usize,
    U64,
    I8,
    I16,
    I32,
    Isize,
    I64,
}

impl IntWidth {
    /// The largest value of the type.
    pub open spec fn max(self) -> int {
        match self {
            IntWidth::U8 => u8::MAX as int,
            IntWidth::U16 => u16::MAX as int,
            IntWidth::U32 => u32::MAX as int,
            IntWidth::Usize => usize::MAX as int,
            IntWidth::U64 => u64::MAX as int,
            IntWidth::I8 => i8::MAX as int,
            IntWidth::I16 => i16::MAX as int,
            IntWidth::I32 => i32::MAX as int,
            IntWidth::Isize => isize::MAX as int,
            IntWidth::I64 => i64::MAX as int,
        }
    }

    /// The place of the type in the emission order.
    pub open spec fn position(self) -> int {
        match self {
            IntWidth::U8 => 0,
            IntWidth::U16 => 1,
            IntWidth::U32 => 2,
            IntWidth::Usize => 3,
            IntWidth::U64 => 4,
            IntWidth::I8 => 5,
            IntWidth::I16 => 6,
            IntWidth::I32 => 7,
            IntWidth::Isize => 8,
            IntWidth::I64 => 9,
        }
    }

    /// Whether every discriminant up to `biggest` is a value of the type.
    pub open spec fn holds(self, biggest: int) -> bool {
        biggest <= self.max()
    }

    /// The largest value of the type, as a `u64`.
    pub fn max_value(self) -> (m: u64)
        ensures
            m == self.max(),
    {
        match self {
            IntWidth::U8 => u8::MAX as u64,
            IntWidth::U16 => u16::MAX as u64,
            IntWidth::U32 => u32::MAX as u64,
            IntWidth::Usize => usize::MAX as u64,
            IntWidth::U64 => u64::MAX,
            IntWidth::I8 => i8::MAX as u64,
            IntWidth::I16 => i16::MAX as u64,
            IntWidth::I32 => i32::MAX as u64,
            IntWidth::Isize => isize::MAX as u64,
            IntWidth::I64 => i64::MAX as u64,
        }
    }

    /// Whether a conversion from the type is emitted for an enum whose
    /// largest discriminant is `biggest`.
    pub fn can_hold(self, biggest: u64) -> (b: bool)
        ensures
            b == self.holds(biggest as int),
    {
        biggest <= self.max_value()
    }
}

/// All ten types, in the order in which conversions are emitted.
pub open spec fn emission_order() -> Seq<IntWidth> {
    seq![
        IntWidth::U8,
        IntWidth::U16,
        IntWidth::U32,
        IntWidth::Usize,
        IntWidth::U64,
        IntWidth::I8,
        IntWidth::I16,
        IntWidth::I32,
        IntWidth::Isize,
        IntWidth::I64,
    ]
}

/// The types for which a conversion is emitted when the largest discriminant
/// is `biggest`: those that hold it, in emission order.
pub open spec fn widths_holding(biggest: int) -> Seq<IntWidth> {
    emission_order().filter(|width: IntWidth| width.holds(biggest))
}

/// A conversion is emitted for a type exactly when the type holds the
/// largest discriminant.
pub proof fn lemma_widths_holding(biggest: int, width: IntWidth)
    ensures
        widths_holding(biggest).contains(width) <==> width.holds(biggest),
{
    let keep = |width: IntWidth| width.holds(biggest);
    let order = emission_order();
    if widths_holding(biggest).contains(width) {
        let i = choose|i: int|
            0 <= i < widths_holding(biggest).len() && widths_holding(biggest)[i] == width;
        order.lemma_filter_pred(keep, i);
    }
    if width.holds(biggest) {
        order.lemma_filter_contains(keep, width.position());
    }
}

/// All ten types, in the order in which conversions are emitted.
pub fn all_widths() -> (all: [IntWidth; 10])
    ensures
        all@ == emission_order(),
{
    [
        IntWidth::U8,
        IntWidth::U16,
        IntWidth::U32,
        IntWidth::Usize,
        IntWidth::U64,
        IntWidth::I8,
        IntWidth::I16,
        IntWidth::I32,
        IntWidth::Isize,
        IntWidth::I64,
    ]
}

/// Selects the types for which a conversion is emitted when the largest
/// discriminant is `biggest`.
pub fn widths_for(biggest: u64) -> (widths: Vec<IntWidth>)
    ensures
        widths@ == widths_holding(biggest as int),
{
    let all = all_widths();
    let ghost keep = |width: IntWidth| width.holds(biggest as int);
    let mut widths: Vec<IntWidth> = Vec::new();
    for i in 0..10
        invariant
            all@ == emission_order(),
            keep == |width: IntWidth| width.holds(biggest as int),
            widths@ == all@.take(i as int).filter(keep),
    {
        proof {
            reveal(Seq::filter);
            assert(all@.take(i + 1).drop_last() =~= all@.take(i as int));
        }
        if all[i].can_hold(biggest) {
            widths.push(all[i]);
        }
    }
    proof {
        assert(all@.take(10) =~= all@);
    }
    widths
}

} // verus!

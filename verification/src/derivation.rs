//! What the derive emits for a declaration.

use crate::discriminant::{biggest, biggest_discriminant, effective_all, effective_discriminants};
use crate::item::{
    declared_all, declared_discriminants, idents, BodyModel, DeriveItem, ItemBody, ItemModel,
    VariantDecl, variant_models,
};
use crate::number::Number;
use crate::width::{lemma_widths_holding, widths_for, widths_holding, IntWidth};
use vstd::prelude::*;

verus! {

/// Why the derive emits a diagnostic in place of conversions.
#[derive(Clone, Copy, Debug, PartialEq, Eq, Structural)]
pub enum DeriveError {
    /// The declaration is a struct or a union.
    NotAnEnum,
    /// The declaration is an enum without variants.
    NoVariants,
}

impl DeriveError {
    /// The text of the diagnostic.
    pub fn message(&self) -> (text: &'static str)
        ensures
            text@ == match self {
                DeriveError::NotAnEnum => "only enums can derive `TryFrom<_>` from discriminants"@,
                DeriveError::NoVariants => "enum does not have any variants"@,
            },
    {
        match self {
            DeriveError::NotAnEnum => "only enums can derive `TryFrom<_>` from discriminants",
            DeriveError::NoVariants => "enum does not have any variants",
        }
    }
}

/// The conversions emitted for an enum: one `TryFrom` implementation for
/// each type in `widths`, each matching a value against the discriminants of
/// the variants in order.
#[derive(Debug, PartialEq, Eq)]
pub struct Derivation {
    ident: String,
    variants: Vec<String>,
    discriminants: Vec<u64>,
    biggest: u64,
    widths: Vec<IntWidth>,
}

/// The mathematical value of a [`Derivation`]: the name of the enum, and the
/// name and the discriminant of each variant in order.
pub struct DerivationModel {
    pub ident: Seq<char>,
    pub variants: Seq<Seq<char>>,
    pub discriminants: Seq<u64>,
}

impl DerivationModel {
    /// There is at least one variant, and each has a name and a discriminant.
    pub open spec fn wf(self) -> bool {
        0 < self.variants.len() == self.discriminants.len()
    }

    /// The largest discriminant.
    pub open spec fn biggest(self) -> u64 {
        biggest(self.discriminants)
    }

    /// The types for which a conversion is emitted, in the order in which
    /// they are emitted: those that hold the largest discriminant.
    pub open spec fn widths(self) -> Seq<IntWidth> {
        widths_holding(self.biggest() as int)
    }
}

impl View for Derivation {
    type V = DerivationModel;

    closed spec fn view(&self) -> DerivationModel {
        DerivationModel {
            ident: self.ident@,
            variants: self.variants@.map_values(|ident: String| ident@),
            discriminants: self.discriminants@,
        }
    }
}

/// What the derive emits for a declaration it can work on: conversions for
/// an enum with at least one variant, and a diagnostic for anything else.
pub open spec fn derived(item: ItemModel) -> Result<DerivationModel, DeriveError>
    recommends
        item.supported(),
{
    match item.body {
        BodyModel::Enum(variants) => if variants.len() == 0 {
            Err(DeriveError::NoVariants)
        } else {
            Ok(
                DerivationModel {
                    ident: item.ident,
                    variants: idents(variants),
                    discriminants: effective_all(declared_all(variants)),
                },
            )
        },
        _ => Err(DeriveError::NotAnEnum),
    }
}

impl Derivation {
    #[verifier::type_invariant]
    closed spec fn consistent(&self) -> bool {
        &&& self@.wf()
        &&& self.biggest == self@.biggest()
        &&& self.widths@ == self@.widths()
    }
}

/// Plans the conversions for a declaration.
///
/// For an enum with at least one variant the result holds the discriminant
/// of every variant and the integer types to emit a conversion for. A struct
/// or a union, and an enum without variants, give the diagnostic to emit.
///
/// The declaration has to be one that the derive supports, which
/// [`DeriveItem::is_supported`] tells.
pub fn enum_from_discriminant(item: &DeriveItem) -> (planned: Result<Derivation, DeriveError>)
    requires
        item@.supported(),
    ensures
        match planned {
            Ok(derivation) => derived(item@) == Ok::<DerivationModel, DeriveError>(derivation@),
            Err(error) => derived(item@) == Err::<DerivationModel, DeriveError>(error),
        },
{
    let variants = match &item.body {
        ItemBody::Enum(variants) => variants,
        _ => {
            return Err(DeriveError::NotAnEnum);
        },
    };
    let declared = declared_discriminants(variants);
    let discriminants = match effective_discriminants(&declared) {
        Some(discriminants) => discriminants,
        None => unreached(),
    };
    let biggest = match biggest_discriminant(&discriminants) {
        Some(biggest) => biggest,
        None => {
            return Err(DeriveError::NoVariants);
        },
    };
    let widths = widths_for(biggest);
    let names = variant_idents(variants);
    Ok(Derivation { ident: item.ident.clone(), variants: names, discriminants, biggest, widths })
}

/// Copies the name of each variant.
fn variant_idents(variants: &Vec<VariantDecl>) -> (names: Vec<String>)
    ensures
        names@.map_values(|ident: String| ident@) == idents(variant_models(variants@)),
{
    let mut names: Vec<String> = Vec::with_capacity(variants.len());
    for i in 0..variants.len()
        invariant
            names@.len() == i,
            forall|j: int| 0 <= j < i ==> names@[j]@ == variants@[j].ident@,
    {
        names.push(variants[i].ident.clone());
    }
    names
}

impl Derivation {
    /// The name of the enum.
    pub fn ident(&self) -> (ident: &str)
        ensures
            ident@ == self@.ident,
    {
        self.ident.as_str()
    }

    /// The number of variants, which is at least one.
    pub fn variant_count(&self) -> (count: usize)
        ensures
            self@.wf(),
            count == self@.variants.len(),
    {
        proof {
            use_type_invariant(self);
        }
        self.discriminants.len()
    }

    /// The name of the variant at `index`, if there is one.
    pub fn variant_ident(&self, index: usize) -> (ident: Option<&str>)
        ensures
            ident is Some <==> index < self@.variants.len(),
            ident matches Some(ident) ==> ident@ == self@.variants[index as int],
    {
        if index < self.variants.len() {
            Some(self.variants[index].as_str())
        } else {
            None
        }
    }

    /// The discriminant of the variant at `index`, if there is one.
    pub fn discriminant(&self, index: usize) -> (discriminant: Option<u64>)
        ensures
            discriminant is Some <==> index < self@.discriminants.len(),
            discriminant matches Some(value) ==> value == self@.discriminants[index as int],
    {
        if index < self.discriminants.len() {
            Some(self.discriminants[index])
        } else {
            None
        }
    }

    /// The largest discriminant.
    pub fn biggest(&self) -> (biggest: u64)
        ensures
            biggest == self@.biggest(),
    {
        proof {
            use_type_invariant(self);
        }
        self.biggest
    }

    /// The integer types for which a conversion is emitted, in the order in
    /// which they are emitted.
    pub fn widths(&self) -> (widths: &[IntWidth])
        ensures
            widths@ == self@.widths(),
    {
        proof {
            use_type_invariant(self);
        }
        self.widths.as_slice()
    }

    /// Tells whether a conversion from the type `width` is emitted.
    pub fn emits(&self, width: IntWidth) -> (emitted: bool)
        ensures
            emitted == self@.widths().contains(width),
    {
        proof {
            use_type_invariant(self);
            lemma_widths_holding(self.biggest as int, width);
        }
        width.can_hold(self.biggest)
    }

    /// Runs the conversion that is emitted for the type of `value`.
    ///
    /// Returns `None` where no conversion from that type is emitted. Else
    /// returns what the conversion returns: the index of the first variant
    /// whose discriminant is `value`, or the empty error if there is none.
    pub fn convert(&self, value: Number) -> (converted: Option<Result<usize, ()>>)
        ensures
            self@.convert(value.width(), value.value()) == match converted {
                Some(Ok(index)) => Some(Ok::<int, ()>(index as int)),
                Some(Err(error)) => Some(Err::<int, ()>(error)),
                None => None::<Result<int, ()>>,
            },
    {
        if !self.emits(value.width()) {
            return None;
        }
        for i in 0..self.discriminants.len()
            invariant
                self@.widths().contains(value.width()),
                forall|earlier: int|
                    0 <= earlier < i ==> self.discriminants@[earlier] != value.value(),
        {
            if value.is_discriminant(self.discriminants[i]) {
                proof {
                    assert(self@.picks(value.value(), i as int));
                    let chosen = choose|index: int| self@.picks(value.value(), index);
                    self@.lemma_picks_unique(value.value(), chosen, i as int);
                }
                return Some(Ok(i));
            }
        }
        Some(Err(()))
    }
}

} // verus!

//! The declaration a derive is asked to work on.
//!
//! The types here hold what the derive reads of a declaration: its name,
//! whether it is a struct, an enum or a union, and for an enum the name of
//! each variant and the discriminant it declares.

use crate::discriminant::{effective_discriminants, representable};
use crate::literal::{eval_literal, literal_value};
use vstd::prelude::*;

verus! {

/// The discriminant that a variant declares.
#[derive(Clone, Debug, PartialEq, Eq)]
pub enum DiscriminantExpr {
    /// The variant declares no discriminant.
    Implicit,
    /// The discriminant is an integer literal, held as its decimal digits.
    IntLiteral(String),
    /// The discriminant is any other expression.
    Other,
}

/// A variant of an enum.
#[derive(Clone, Debug, PartialEq, Eq)]
pub struct VariantDecl {
    pub ident: String,
    pub discriminant: DiscriminantExpr,
}

/// What kind of type a declaration declares, with the variants of an enum.
#[derive(Clone, Debug, PartialEq, Eq)]
pub enum ItemBody {
    Struct,
    Enum(Vec<VariantDecl>),
    Union,
}

/// A type declaration.
#[derive(Clone, Debug, PartialEq, Eq)]
pub struct DeriveItem {
    pub ident: String,
    pub body: ItemBody,
}

/// The mathematical value of a [`DiscriminantExpr`].
pub enum DiscriminantModel {
    Implicit,
    IntLiteral(Seq<char>),
    Other,
}

/// The mathematical value of a [`VariantDecl`].
pub struct VariantModel {
    pub ident: Seq<char>,
    pub discriminant: DiscriminantModel,
}

/// The mathematical value of an [`ItemBody`].
pub enum BodyModel {
    Struct,
    Enum(Seq<VariantModel>),
    Union,
}

/// The mathematical value of a [`DeriveItem`].
pub struct ItemModel {
    pub ident: Seq<char>,
    pub body: BodyModel,
}

impl View for DiscriminantExpr {
    type V = DiscriminantModel;

    open spec fn view(&self) -> DiscriminantModel {
        match self {
            DiscriminantExpr::Implicit => DiscriminantModel::Implicit,
            DiscriminantExpr::IntLiteral(digits) => DiscriminantModel::IntLiteral(digits@),
            DiscriminantExpr::Other => DiscriminantModel::Other,
        }
    }
}

impl View for VariantDecl {
    type V = VariantModel;

    open spec fn view(&self) -> VariantModel {
        VariantModel { ident: self.ident@, discriminant: self.discriminant@ }
    }
}

impl View for ItemBody {
    type V = BodyModel;

    open spec fn view(&self) -> BodyModel {
        match self {
            ItemBody::Struct => BodyModel::Struct,
            ItemBody::Enum(variants) => BodyModel::Enum(variant_models(variants@)),
            ItemBody::Union => BodyModel::Union,
        }
    }
}

impl View for DeriveItem {
    type V = ItemModel;

    open spec fn view(&self) -> ItemModel {
        ItemModel { ident: self.ident@, body: self.body@ }
    }
}

/// The mathematical values of a list of variants.
pub open spec fn variant_models(variants: Seq<VariantDecl>) -> Seq<VariantModel> {
    variants.map_values(|variant: VariantDecl| variant@)
}

impl DiscriminantModel {
    /// Whether the derive can read the discriminant: it is left out, or it is
    /// an integer literal whose value fits in 64 bits.
    pub open spec fn supported(self) -> bool {
        match self {
            DiscriminantModel::Implicit => true,
            DiscriminantModel::IntLiteral(digits) => literal_value(digits) is Some,
            DiscriminantModel::Other => false,
        }
    }

    /// The discriminant that is declared and that the derive can read, if
    /// there is one.
    pub open spec fn declared(self) -> Option<u64> {
        match self {
            DiscriminantModel::IntLiteral(digits) => literal_value(digits),
            _ => None,
        }
    }
}

/// Whether the derive can read the discriminant of every variant.
pub open spec fn all_supported(variants: Seq<VariantModel>) -> bool {
    forall|i: int| 0 <= i < variants.len() ==> (#[trigger] variants[i]).discriminant.supported()
}

/// For each variant, the discriminant that it declares and that the derive
/// can read, if there is one.
pub open spec fn declared_all(variants: Seq<VariantModel>) -> Seq<Option<u64>> {
    variants.map_values(|variant: VariantModel| variant.discriminant.declared())
}

/// The name of each variant.
pub open spec fn idents(variants: Seq<VariantModel>) -> Seq<Seq<char>> {
    variants.map_values(|variant: VariantModel| variant.ident)
}

impl ItemModel {
    /// Whether the derive can work on the declaration. It cannot where a
    /// variant of an enum declares a discriminant that is no integer literal
    /// or does not fit in 64 bits, or where counting up from a declared
    /// discriminant leaves the 64 bits.
    pub open spec fn supported(self) -> bool {
        match self.body {
            BodyModel::Enum(variants) => all_supported(variants) && representable(
                declared_all(variants),
            ),
            _ => true,
        }
    }
}

impl DiscriminantExpr {
    /// Tells whether the derive can read the discriminant.
    pub fn is_supported(&self) -> (supported: bool)
        ensures
            supported == self@.supported(),
    {
        match self {
            DiscriminantExpr::Implicit => true,
            DiscriminantExpr::IntLiteral(digits) => eval_literal(digits.as_str()).is_some(),
            DiscriminantExpr::Other => false,
        }
    }

    /// Reads the discriminant that is declared, if there is one that the
    /// derive can read.
    pub fn declared(&self) -> (declared: Option<u64>)
        ensures
            declared == self@.declared(),
    {
        match self {
            DiscriminantExpr::IntLiteral(digits) => eval_literal(digits.as_str()),
            _ => None,
        }
    }
}

/// Tells whether the derive can read the discriminant of every variant.
pub fn check_all_supported(variants: &Vec<VariantDecl>) -> (supported: bool)
    ensures
        supported == all_supported(variant_models(variants@)),
{
    for i in 0..variants.len()
        invariant
            forall|j: int|
                0 <= j < i ==> (#[trigger] variant_models(variants@)[j]).discriminant.supported(),
    {
        if !variants[i].discriminant.is_supported() {
            assert(!variant_models(variants@)[i as int].discriminant.supported());
            return false;
        }
    }
    true
}

/// Reads the discriminant that each variant declares, if there is one that
/// the derive can read.
pub fn declared_discriminants(variants: &Vec<VariantDecl>) -> (declared: Vec<Option<u64>>)
    ensures
        declared@ == declared_all(variant_models(variants@)),
{
    let mut declared: Vec<Option<u64>> = Vec::with_capacity(variants.len());
    for i in 0..variants.len()
        invariant
            declared@.len() == i,
            forall|j: int|
                0 <= j < i ==> declared@[j] == declared_all(variant_models(variants@))[j],
    {
        declared.push(variants[i].discriminant.declared());
    }
    declared
}

impl DeriveItem {
    /// Tells whether the derive can work on the declaration.
    pub fn is_supported(&self) -> (supported: bool)
        ensures
            supported == self@.supported(),
    {
        match &self.body {
            ItemBody::Enum(variants) => {
                if !check_all_supported(variants) {
                    return false;
                }
                let declared = declared_discriminants(variants);
                effective_discriminants(&declared).is_some()
            },
            _ => true,
        }
    }
}

} // verus!

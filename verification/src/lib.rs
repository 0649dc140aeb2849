//! Planning of fallible integer-to-enum conversions.
//!
//! A derive that implements `TryFrom<u8>`, `TryFrom<i16>` and so on for an
//! enum has to know the discriminant of every variant. This library takes
//! the declaration as the derive has read it ([`DeriveItem`]) and plans what
//! to emit ([`enum_from_discriminant`]):
//!
//! - it works out the discriminant of every variant: the one the variant
//!   declares, or else one more than that of the variant before it, counting
//!   from zero;
//! - it finds the largest discriminant;
//! - it selects the integer types to emit a conversion for: those among the
//!   ten primitive ones whose largest value is at least the largest
//!   discriminant;
//! - for a declaration that is no enum, and for an enum without variants, it
//!   gives the diagnostic to emit in place of conversions.
//!
//! The plan ([`Derivation`]) also tells what each emitted conversion returns
//! for every value ([`Derivation::convert`]).
//!
//! The derive reads a declared discriminant only where it is an integer
//! literal that fits in 64 bits. [`DeriveItem::is_supported`] tells whether a
//! declaration can be planned.

pub mod conversion;
pub mod derivation;
pub mod discriminant;
pub mod item;
pub mod laws;
pub mod literal;
pub mod number;
pub mod width;

pub use derivation::{enum_from_discriminant, Derivation, DeriveError};
pub use item::{DeriveItem, DiscriminantExpr, ItemBody, VariantDecl};
pub use number::Number;
pub use width::IntWidth;

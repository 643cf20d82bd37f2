//! A derivation engine for integer-backed enumerations.
//!
//! Given the declaration of an enumeration whose variants carry no data, the
//! engine resolves the integer representation, works out the discriminant of
//! every variant, and writes the conversions between the enumeration and its
//! integer representation, with the code that takes the enumeration to and
//! from a wire format where that is asked for. Whatever is wrong with a
//! declaration is gathered into one diagnostic.
//!
//! The engine works on plain values: [`ast`] holds a declaration as it is
//! handed in, [`input`] what it resolves to, and [`expand`] and [`serde`]
//! write the code as text. [`convert`] and [`serde`] also say what the
//! written conversions compute, on a table of the variants and their
//! integers, and [`laws`] what holds of that for every enumeration.

pub mod span;
pub mod diagnostic;
pub mod text;
pub mod decimal;
pub mod value;
pub mod prim;
pub mod repr;
pub mod expr;
pub mod ast;
pub mod policy;
pub mod input;
pub mod error;
pub mod convert;
pub mod wire;
pub mod serde;
pub mod expand;
pub mod laws;

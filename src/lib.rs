//! Renders structural descriptions of records and tagged unions as F# type
//! declarations, with optional value-level helpers for unions.

pub mod text;
pub mod model;
pub mod mapping;
pub mod records;
pub mod tagging;
pub mod variants;
pub mod patch;
pub mod helpers;
pub mod output;
pub mod laws;
pub mod bytes;
pub mod source_builder;

pub use source_builder::SourceBuilder;

use vstd::prelude::*;

verus! {

/// A type that knows its own F# declaration.
pub trait FSharpifyTrait {
    /// The F# declaration of the implementing type.
    fn fsharp_ify() -> String;
}

} // verus!

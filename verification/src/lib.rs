//! Abstract syntax for `undefine` statements of a typed-graph schema
//! definition language, together with a canonical, verified renderer.
//!
//! The model is a closed union of seven statement shapes ([`undefinable::Undefinable`]),
//! each carrying the schema elements it names and — except for the bare type
//! removal — an optional source [`common::Span`] for diagnostics. The renderer
//! maps every statement to its canonical single-line text; its contracts pin
//! the exact output down to the character.

pub mod common;
pub mod undefinable;

pub use common::{AnnotationCategory, CapabilityBase, Identifier, Label, Relates, Span};
pub use undefinable::{
    AnnotationCapability, AnnotationType, CapabilityType, Function, Specialise, Struct,
    Undefinable,
};

//! Name mangling for generic trait instantiations, and the three expansions
//! built on it: declaring a marker trait, referring to it as a trait object,
//! and extending an implementation block with the marker implementation.

pub mod expand;
pub mod laws;
pub mod mangle;
pub mod path;

pub use expand::{
    rph, rphize, rphize_impl, Annotation, ImplBlock, MonomoInput, RewrittenImpl,
    TraitDeclaration, TraitObjectType,
};
pub use mangle::{flatten_type_path, monomorphize_path, ExpansionError};
pub use path::{GenericArgument, PathArguments, PathSegment, TypePath};

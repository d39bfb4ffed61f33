//! The syntactic model of a type path: what the mangler reads of one.

use vstd::prelude::*;

verus! {

/// One generic argument of a path segment.
#[derive(Debug, PartialEq, Eq)]
pub enum GenericArgument {
    /// A concrete type that is itself named by a path, such as `Vec<u8>`.
    Type(TypePath),
    /// A lifetime, such as `'a`.
    Lifetime,
    /// Anything else: a constant, a binding, or a type that is not a path (a
    /// reference, a tuple, a slice and so on).
    Other,
}

/// What follows the name of a path segment.
#[derive(Debug, PartialEq, Eq)]
pub enum PathArguments {
    /// Nothing, as in `Foo`.
    Bare,
    /// A list in angle brackets, as in `Foo<A, B>`.
    AngleBracketed(Vec<GenericArgument>),
    /// A list in round brackets, as in `Fn(A) -> B`.
    Parenthesized,
}

/// One segment of a path: a name and its arguments.
#[derive(Debug, PartialEq, Eq)]
pub struct PathSegment {
    pub name: String,
    pub arguments: PathArguments,
}

/// A type path: its segments from left to right, as in `a::b::Foo<X>`.
#[derive(Debug, PartialEq, Eq)]
pub struct TypePath {
    pub segments: Vec<PathSegment>,
}

} // verus!

//! The three expansions: declaring a marker trait, referring to it as a
//! trait object, and extending an implementation block with the marker
//! implementation.
//!
//! Attributes, receiving types and bodies are carried through untouched, so
//! the types here are generic in them.

use vstd::prelude::*;
use crate::mangle::{monomorphize_path, marker_name, ExpansionError};
use crate::path::TypePath;

verus! {

/// What an invocation hands over: the attributes in front, then the path.
#[derive(Debug, PartialEq, Eq)]
pub struct MonomoInput<A> {
    pub attrs: Vec<A>,
    pub path: TypePath,
}

/// One annotation of a declared marker trait.
#[derive(Debug, PartialEq, Eq)]
pub enum Annotation<A> {
    /// `#[allow(non_camel_case_types)]`: generated names hold underscores.
    AllowNonCamelCaseTypes,
    /// An attribute of the invocation, unchanged.
    Forwarded(A),
}

/// The declaration `trait name : supertrait {}` behind its annotations. The
/// body is always empty.
#[derive(Debug, PartialEq, Eq)]
pub struct TraitDeclaration<A> {
    pub annotations: Vec<Annotation<A>>,
    pub name: String,
    pub supertrait: TypePath,
}

/// The type expression `dyn trait_name`.
#[derive(Debug, PartialEq, Eq)]
pub struct TraitObjectType {
    pub trait_name: String,
}

/// An implementation block: its attributes, the trait it implements if it
/// names one, the receiving type, and everything else of it.
#[derive(Debug, PartialEq, Eq)]
pub struct ImplBlock<A, T, B> {
    pub attrs: Vec<A>,
    pub trait_path: Option<TypePath>,
    pub self_ty: T,
    pub body: B,
}

/// The two blocks that replace an annotated implementation, in the order in
/// which they are emitted: the original one, then the empty implementation
/// `impl marker_trait for T {}` behind `marker_attrs`, where `T` is the
/// original block's receiving type.
#[derive(Debug, PartialEq, Eq)]
pub struct RewrittenImpl<A, T, B> {
    pub original: ImplBlock<A, T, B>,
    pub marker_attrs: Vec<A>,
    pub marker_trait: String,
}

impl<A, T, B> RewrittenImpl<A, T, B> {
    /// The type that the marker implementation is for.
    pub open spec fn marker_self_ty(&self) -> T {
        self.original.self_ty
    }

    /// The type that the marker implementation is for.
    pub fn receiving_type(&self) -> (ty: &T)
        ensures
            *ty == self.marker_self_ty(),
    {
        &self.original.self_ty
    }
}

/// The annotations of a trait declared with `attrs`: the casing allowance,
/// then each attribute in its place.
pub open spec fn declared_annotations<A>(attrs: Seq<A>) -> Seq<Annotation<A>> {
    Seq::new(
        attrs.len() + 1,
        |i: int|
            if i == 0 {
                Annotation::AllowNonCamelCaseTypes
            } else {
                Annotation::Forwarded(attrs[i - 1])
            },
    )
}

/// Whether `result` is what declaring the marker trait for `input` gives.
pub open spec fn declares<A>(
    input: MonomoInput<A>,
    result: Result<TraitDeclaration<A>, ExpansionError>,
) -> bool {
    match result {
        Ok(decl) => {
            &&& marker_name(input.path) == Ok::<Seq<char>, ExpansionError>(decl.name@)
            &&& decl.supertrait == input.path
            &&& decl.annotations@ == declared_annotations(input.attrs@)
        },
        Err(e) => marker_name(input.path) == Err::<Seq<char>, ExpansionError>(e),
    }
}

/// Whether `result` is what referring to the marker trait for `input` gives.
pub open spec fn refers<A>(
    input: MonomoInput<A>,
    result: Result<TraitObjectType, ExpansionError>,
) -> bool {
    match result {
        Ok(ty) => marker_name(input.path) == Ok::<Seq<char>, ExpansionError>(ty.trait_name@),
        Err(e) => marker_name(input.path) == Err::<Seq<char>, ExpansionError>(e),
    }
}

/// Whether `result` is what extending `block` gives.
pub open spec fn extends<A, T, B>(
    block: ImplBlock<A, T, B>,
    result: Result<RewrittenImpl<A, T, B>, ExpansionError>,
) -> bool {
    match result {
        Ok(pair) => {
            &&& block.trait_path is Some
            &&& marker_name(block.trait_path->0) == Ok::<Seq<char>, ExpansionError>(
                pair.marker_trait@,
            )
            &&& pair.marker_attrs@ == block.attrs@
            &&& pair.original.attrs@ == Seq::<A>::empty()
            &&& pair.original.trait_path == block.trait_path
            &&& pair.original.self_ty == block.self_ty
            &&& pair.original.body == block.body
        },
        Err(e) => match block.trait_path {
            Some(path) => marker_name(path) == Err::<Seq<char>, ExpansionError>(e),
            None => e == ExpansionError::NoTrait,
        },
    }
}

/// Declares the marker trait for the path of `input`: a trait named by the
/// path's marker name, with the path as its only supertrait, that carries the
/// casing allowance and then the attributes of `input` in their order.
pub fn rphize<A>(input: MonomoInput<A>) -> (result: Result<TraitDeclaration<A>, ExpansionError>)
    ensures
        declares(input, result),
{
    let name = match monomorphize_path(&input.path) {
        Ok(name) => name,
        Err(e) => {
            return Err(e);
        },
    };
    let MonomoInput { attrs, path } = input;
    let mut annotations: Vec<Annotation<A>> = Vec::new();
    annotations.push(Annotation::AllowNonCamelCaseTypes);
    for attr in it: attrs
        invariant
            it.seq() == input.attrs@,
            annotations@.len() == it.index() + 1,
            forall|j: int|
                0 <= j < annotations@.len() ==> annotations@[j] == declared_annotations(
                    input.attrs@,
                )[j],
    {
        annotations.push(Annotation::Forwarded(attr));
    }
    proof {
        assert(annotations@ =~= declared_annotations(input.attrs@));
    }
    Ok(TraitDeclaration { annotations, name, supertrait: path })
}

/// Refers to the marker trait for the path of `input` as a trait object. The
/// attributes of `input` play no part.
pub fn rph<A>(input: MonomoInput<A>) -> (result: Result<TraitObjectType, ExpansionError>)
    ensures
        refers(input, result),
{
    match monomorphize_path(&input.path) {
        Ok(trait_name) => Ok(TraitObjectType { trait_name }),
        Err(e) => Err(e),
    }
}

/// Extends `block` with the implementation of its trait's marker trait: the
/// block's attributes move to the marker implementation, and the block itself
/// is otherwise unchanged. A block that names no trait is refused.
pub fn rphize_impl<A, T, B>(block: ImplBlock<A, T, B>) -> (result: Result<
    RewrittenImpl<A, T, B>,
    ExpansionError,
>)
    ensures
        extends(block, result),
{
    let ImplBlock { attrs, trait_path, self_ty, body } = block;
    let marker_trait = match &trait_path {
        Some(path) => match monomorphize_path(path) {
            Ok(name) => name,
            Err(e) => {
                return Err(e);
            },
        },
        None => {
            return Err(ExpansionError::NoTrait);
        },
    };
    let original = ImplBlock { attrs: Vec::new(), trait_path, self_ty, body };
    Ok(RewrittenImpl { original, marker_attrs: attrs, marker_trait })
}

} // verus!

//! What holds of flattening and of the expansions, for every input.

use vstd::prelude::*;
use crate::expand::{
    declares, extends, refers, ImplBlock, MonomoInput, RewrittenImpl, TraitDeclaration,
    TraitObjectType,
};
use crate::mangle::{flattened, joined, marker_name, marker_prefix, separator, ExpansionError};
use crate::path::{GenericArgument, PathArguments, PathSegment, TypePath};

verus! {

/// Whether two paths have the same structure: the same segments, by name and
/// by arguments, all the way down.
pub open spec fn same_path(p: TypePath, q: TypePath) -> bool
    decreases p,
{
    &&& p.segments@.len() == q.segments@.len()
    &&& forall|i: int|
        0 <= i < p.segments@.len() ==> same_segment(#[trigger] p.segments@[i], q.segments@[i])
}

/// Whether two segments have the same name and the same arguments.
pub open spec fn same_segment(s: PathSegment, t: PathSegment) -> bool
    decreases s,
{
    &&& s.name@ == t.name@
    &&& match (s.arguments, t.arguments) {
        (PathArguments::Bare, PathArguments::Bare) => true,
        (PathArguments::Parenthesized, PathArguments::Parenthesized) => true,
        (PathArguments::AngleBracketed(a), PathArguments::AngleBracketed(b)) => same_arguments(
            a@,
            b@,
        ),
        _ => false,
    }
}

/// Whether two argument lists agree, place by place.
pub open spec fn same_arguments(a: Seq<GenericArgument>, b: Seq<GenericArgument>) -> bool
    decreases a,
{
    &&& a.len() == b.len()
    &&& forall|i: int|
        0 <= i < a.len() ==> match (#[trigger] a[i], b[i]) {
            (GenericArgument::Type(x), GenericArgument::Type(y)) => same_path(x, y),
            (GenericArgument::Lifetime, GenericArgument::Lifetime) => true,
            (GenericArgument::Other, GenericArgument::Other) => true,
            _ => false,
        }
}

/// Whether `path` can be flattened: it has a segment, and each argument in
/// the angle brackets of its last segment is a type path that can be
/// flattened in turn.
pub open spec fn mangleable(path: TypePath) -> bool
    decreases path,
{
    &&& path.segments@.len() > 0
    &&& match path.segments@.last().arguments {
        PathArguments::AngleBracketed(args) => all_mangleable(args@),
        _ => true,
    }
}

/// Whether each of `args` is a type path that can be flattened.
pub open spec fn all_mangleable(args: Seq<GenericArgument>) -> bool
    decreases args,
{
    forall|i: int|
        0 <= i < args.len() ==> match #[trigger] args[i] {
            GenericArgument::Type(inner) => mangleable(inner),
            _ => false,
        }
}

/// Flattening is a function of the path's structure: two paths of the same
/// structure have the same flat identifier, or fail alike.
pub proof fn lemma_flatten_deterministic(p: TypePath, q: TypePath)
    requires
        same_path(p, q),
    ensures
        flattened(p) == flattened(q),
    decreases p, 0nat,
{
    if p.segments@.len() > 0 {
        let s = p.segments@[p.segments@.len() - 1];
        let t = q.segments@[p.segments@.len() - 1];
        assert(same_segment(s, t));
        match (s.arguments, t.arguments) {
            (PathArguments::AngleBracketed(a), PathArguments::AngleBracketed(b)) => {
                lemma_joined_deterministic(s.name@, a@, b@);
            },
            _ => {},
        }
    }
}

/// Joining argument lists that agree place by place gives the same result.
pub proof fn lemma_joined_deterministic(
    seed: Seq<char>,
    a: Seq<GenericArgument>,
    b: Seq<GenericArgument>,
)
    requires
        same_arguments(a, b),
    ensures
        joined(seed, a) == joined(seed, b),
    decreases a, 1nat,
{
    if a.len() > 0 {
        assert(a[0] == a.first());
        match (a[0], b[0]) {
            (GenericArgument::Type(x), GenericArgument::Type(y)) => {
                lemma_flatten_deterministic(x, y);
                if let Ok(name) = flattened(x) {
                    assert forall|i: int| 0 <= i < a.drop_first().len() implies match (
                        #[trigger] a.drop_first()[i],
                        b.drop_first()[i],
                    ) {
                        (GenericArgument::Type(x), GenericArgument::Type(y)) => same_path(x, y),
                        (GenericArgument::Lifetime, GenericArgument::Lifetime) => true,
                        (GenericArgument::Other, GenericArgument::Other) => true,
                        _ => false,
                    } by {
                        assert(a.drop_first()[i] == a[i + 1]);
                        assert(b.drop_first()[i] == b[i + 1]);
                    }
                    lemma_joined_deterministic(
                        seed + separator() + name,
                        a.drop_first(),
                        b.drop_first(),
                    );
                }
            },
            _ => {},
        }
    }
}

/// Arguments compose from left to right: the flat identifier of a path with
/// two type arguments is that of the path without them, then an underscore and
/// the first argument's, then an underscore and the second's.
pub proof fn lemma_flatten_composes(outer: TypePath, bare: TypePath, a: TypePath, b: TypePath)
    requires
        outer.segments@.len() > 0,
        outer.segments@.last().arguments matches PathArguments::AngleBracketed(args) && args@
            == seq![GenericArgument::Type(a), GenericArgument::Type(b)],
        bare.segments@.len() > 0,
        bare.segments@.last().name@ == outer.segments@.last().name@,
        bare.segments@.last().arguments == PathArguments::Bare,
        flattened(a) is Ok,
        flattened(b) is Ok,
    ensures
        flattened(bare) is Ok,
        flattened(outer) == Ok::<Seq<char>, ExpansionError>(
            flattened(bare)->Ok_0 + separator() + flattened(a)->Ok_0 + separator() + flattened(
                b,
            )->Ok_0,
        ),
{
    let args = seq![GenericArgument::Type(a), GenericArgument::Type(b)];
    let seed = outer.segments@.last().name@;
    let first = seed + separator() + flattened(a)->Ok_0;
    assert(args.first() == GenericArgument::Type(a));
    assert(args.drop_first() =~= seq![GenericArgument::Type(b)]);
    assert(args.drop_first().first() == GenericArgument::Type(b));
    assert(args.drop_first().drop_first().len() == 0);
    assert(joined(first, args.drop_first()) == Ok::<Seq<char>, ExpansionError>(
        first + separator() + flattened(b)->Ok_0,
    )) by {
        reveal_with_fuel(joined, 2);
    }
    assert(joined(seed, args) == joined(first, args.drop_first()));
}

/// One more argument at the right end appends to what the arguments before it
/// gave: joining is a fold from the left, which stops at the first failure.
pub proof fn lemma_joined_push(seed: Seq<char>, args: Seq<GenericArgument>, last: GenericArgument)
    ensures
        joined(seed, args.push(last)) == match joined(seed, args) {
            Ok(name) => joined(name, seq![last]),
            Err(e) => Err(e),
        },
    decreases args.len(),
{
    if args.len() == 0 {
        assert(args.push(last) =~= seq![last]);
    } else {
        assert(args.push(last).first() == args.first());
        assert(args.push(last).drop_first() =~= args.drop_first().push(last));
        match args.first() {
            GenericArgument::Type(inner) => {
                if let Ok(name) = flattened(inner) {
                    lemma_joined_push(seed + separator() + name, args.drop_first(), last);
                }
            },
            _ => {},
        }
    }
}

/// Flattening succeeds exactly on the paths that can be flattened, and of the
/// errors it gives only the two that speak of paths.
pub proof fn lemma_flatten_succeeds_iff_mangleable(path: TypePath)
    ensures
        flattened(path) is Ok <==> mangleable(path),
        flattened(path) is Err ==> flattened(path)->Err_0 != ExpansionError::NoTrait,
    decreases path, 0nat,
{
    if path.segments@.len() > 0 {
        let last = path.segments@.last();
        match last.arguments {
            PathArguments::AngleBracketed(args) => {
                lemma_joined_succeeds_iff_mangleable(last.name@, args@);
            },
            _ => {},
        }
    }
}

/// Joining succeeds exactly where every argument can be flattened.
pub proof fn lemma_joined_succeeds_iff_mangleable(seed: Seq<char>, args: Seq<GenericArgument>)
    ensures
        joined(seed, args) is Ok <==> all_mangleable(args),
        joined(seed, args) is Err ==> joined(seed, args)->Err_0 != ExpansionError::NoTrait,
    decreases args, 1nat,
{
    if args.len() > 0 {
        let rest = args.drop_first();
        assert(args[0] == args.first());
        assert forall|i: int| 0 <= i < rest.len() implies #[trigger] rest[i] == args[i + 1] by {}
        match args.first() {
            GenericArgument::Type(inner) => {
                lemma_flatten_succeeds_iff_mangleable(inner);
                if let Ok(name) = flattened(inner) {
                    lemma_joined_succeeds_iff_mangleable(seed + separator() + name, rest);
                    if all_mangleable(rest) {
                        assert forall|i: int| 0 <= i < args.len() implies match #[trigger] args[i] {
                            GenericArgument::Type(inner) => mangleable(inner),
                            _ => false,
                        } by {
                            if i > 0 {
                                assert(args[i] == rest[i - 1]);
                            }
                        }
                    }
                    if all_mangleable(args) {
                        assert forall|i: int| 0 <= i < rest.len() implies match #[trigger] rest[i] {
                            GenericArgument::Type(inner) => mangleable(inner),
                            _ => false,
                        } by {
                            assert(rest[i] == args[i + 1]);
                        }
                    }
                }
            },
            _ => {},
        }
    }
}

/// A path whose last segment holds, in its angle brackets, an argument that
/// is not a type path (a lifetime, for one) has no flat identifier.
pub proof fn lemma_flatten_rejects_unsupported(path: TypePath, at: int)
    requires
        path.segments@.len() > 0,
        path.segments@.last().arguments matches PathArguments::AngleBracketed(args) && 0 <= at
            < args@.len() && !(args@[at] is Type),
    ensures
        flattened(path) is Err,
        marker_name(path) is Err,
{
    lemma_flatten_succeeds_iff_mangleable(path);
}

/// The declaration and the reference agree on the name: for paths of the same
/// structure both hold the same marker name, two underscores and the flat
/// identifier.
pub proof fn lemma_declaration_and_reference_agree<A, C>(
    declared: MonomoInput<A>,
    declaration: TraitDeclaration<A>,
    referred: MonomoInput<C>,
    reference: TraitObjectType,
)
    requires
        declares(declared, Ok(declaration)),
        refers(referred, Ok(reference)),
        same_path(declared.path, referred.path),
    ensures
        flattened(declared.path) is Ok,
        declaration.name@ == marker_prefix() + flattened(declared.path)->Ok_0,
        reference.trait_name@ == declaration.name@,
{
    lemma_flatten_deterministic(declared.path, referred.path);
}

/// Where one of them succeeds on a path, so does the other on a path of the
/// same structure: a reference never names a trait that could not be declared.
pub proof fn lemma_declaration_and_reference_fail_alike<A, C>(
    declared: MonomoInput<A>,
    declaration: Result<TraitDeclaration<A>, ExpansionError>,
    referred: MonomoInput<C>,
    reference: Result<TraitObjectType, ExpansionError>,
)
    requires
        declares(declared, declaration),
        refers(referred, reference),
        same_path(declared.path, referred.path),
    ensures
        declaration is Ok <==> reference is Ok,
        declaration is Err ==> reference->Err_0 == declaration->Err_0,
{
    lemma_flatten_deterministic(declared.path, referred.path);
}

/// The marker implementation names the declared trait: extending a block
/// whose trait has the structure of a declared path gives an implementation of
/// the trait of that declaration.
pub proof fn lemma_marker_impl_names_declared_trait<A, C, T, B>(
    declared: MonomoInput<A>,
    declaration: TraitDeclaration<A>,
    block: ImplBlock<C, T, B>,
    pair: RewrittenImpl<C, T, B>,
)
    requires
        declares(declared, Ok(declaration)),
        extends(block, Ok(pair)),
        block.trait_path is Some ==> same_path(declared.path, block.trait_path->0),
    ensures
        pair.marker_trait@ == declaration.name@,
{
    lemma_flatten_deterministic(declared.path, block.trait_path->0);
}

} // verus!

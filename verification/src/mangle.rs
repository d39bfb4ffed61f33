//! Flattening a type path into one identifier, and the marker trait's name.

use vstd::prelude::*;
use crate::path::{GenericArgument, PathArguments, TypePath};

verus! {

/// Why an expansion was refused.
#[derive(Debug, PartialEq, Eq, Clone, Copy)]
pub enum ExpansionError {
    /// A path without any segment was to be flattened.
    NoSegments,
    /// A generic argument that is not a concrete type path (a lifetime, for
    /// one) was met while flattening.
    UnsupportedArgument,
    /// An implementation block names no trait.
    NoTrait,
}

impl ExpansionError {
    /// The words of the diagnostic for this error.
    pub open spec fn message_text(self) -> Seq<char> {
        match self {
            ExpansionError::NoSegments => "Incorrect identifier!"@,
            ExpansionError::UnsupportedArgument => "Lifetimes cannot be monomorphized!"@,
            ExpansionError::NoTrait => "No trait to monomorphize!"@,
        }
    }

    /// The diagnostic for this error.
    pub fn message(&self) -> (text: String)
        ensures
            text@ == self.message_text(),
    {
        match self {
            ExpansionError::NoSegments => String::from_str("Incorrect identifier!"),
            ExpansionError::UnsupportedArgument => String::from_str(
                "Lifetimes cannot be monomorphized!",
            ),
            ExpansionError::NoTrait => String::from_str("No trait to monomorphize!"),
        }
    }
}

/// The separator between a name and each flattened argument.
pub open spec fn separator() -> Seq<char> {
    seq!['_']
}

/// The prefix that turns a flattened path into a marker trait's name.
pub open spec fn marker_prefix() -> Seq<char> {
    seq!['_', '_']
}

/// The flat identifier of `path`: the name of its last segment, followed, for
/// each argument in angle brackets from left to right, by an underscore and
/// that argument's own flat identifier. A path without segments has none, nor
/// has one with an argument that is not a type path; the first defect met,
/// going left to right and into each argument before the next, is the error.
pub open spec fn flattened(path: TypePath) -> Result<Seq<char>, ExpansionError>
    decreases path, 0nat,
{
    if path.segments@.len() == 0 {
        Err(ExpansionError::NoSegments)
    } else {
        let last = path.segments@.last();
        match last.arguments {
            PathArguments::AngleBracketed(args) => joined(last.name@, args@),
            _ => Ok(last.name@),
        }
    }
}

/// `seed` with the flat identifier of each of `args` appended in turn, each
/// behind an underscore.
pub open spec fn joined(seed: Seq<char>, args: Seq<GenericArgument>) -> Result<
    Seq<char>,
    ExpansionError,
>
    decreases args, 1nat,
{
    if args.len() == 0 {
        Ok(seed)
    } else {
        match args.first() {
            GenericArgument::Type(inner) => match flattened(inner) {
                Ok(name) => joined(seed + separator() + name, args.drop_first()),
                Err(e) => Err(e),
            },
            _ => Err(ExpansionError::UnsupportedArgument),
        }
    }
}

/// The name of the marker trait that stands for `path`: two underscores and
/// the flat identifier.
pub open spec fn marker_name(path: TypePath) -> Result<Seq<char>, ExpansionError> {
    match flattened(path) {
        Ok(name) => Ok(marker_prefix() + name),
        Err(e) => Err(e),
    }
}

/// Whether `result` is `expected`, the identifier taken by its characters.
pub open spec fn is_name(result: Result<String, ExpansionError>, expected: Result<
    Seq<char>,
    ExpansionError,
>) -> bool {
    match result {
        Ok(name) => expected == Ok::<Seq<char>, ExpansionError>(name@),
        Err(e) => expected == Err::<Seq<char>, ExpansionError>(e),
    }
}

/// Flattens `path` into one identifier.
pub fn flatten_type_path(path: &TypePath) -> (result: Result<String, ExpansionError>)
    ensures
        is_name(result, flattened(*path)),
    decreases *path,
{
    let count = path.segments.len();
    if count == 0 {
        return Err(ExpansionError::NoSegments);
    }
    let last = &path.segments[count - 1];
    let mut name = last.name.clone();
    match &last.arguments {
        PathArguments::AngleBracketed(args) => {
            let mut i: usize = 0;
            proof {
                assert(args@.skip(0) =~= args@);
            }
            while i < args.len()
                invariant
                    i <= args.len(),
                    path.segments@.len() > 0,
                    path.segments@.last().arguments == PathArguments::AngleBracketed(*args),
                    flattened(*path) == joined(name@, args@.skip(i as int)),
                decreases args.len() - i,
            {
                proof {
                    reveal_strlit("_");
                    assert(args@.skip(i as int).drop_first() =~= args@.skip(i + 1));
                }
                match &args[i] {
                    GenericArgument::Type(inner) => {
                        match flatten_type_path(inner) {
                            Ok(flat) => {
                                name.append("_");
                                name.append(flat.as_str());
                                proof {
                                    assert("_"@ =~= separator());
                                }
                            },
                            Err(e) => {
                                return Err(e);
                            },
                        }
                    },
                    _ => {
                        return Err(ExpansionError::UnsupportedArgument);
                    },
                }
                i += 1;
            }
            Ok(name)
        },
        _ => Ok(name),
    }
}

/// The name of the marker trait for `path`.
pub fn monomorphize_path(path: &TypePath) -> (result: Result<String, ExpansionError>)
    ensures
        is_name(result, marker_name(*path)),
{
    match flatten_type_path(path) {
        Ok(flat) => {
            let mut name = String::from_str("__");
            name.append(flat.as_str());
            proof {
                reveal_strlit("__");
                assert("__"@ =~= marker_prefix());
            }
            Ok(name)
        },
        Err(e) => Err(e),
    }
}

} // verus!

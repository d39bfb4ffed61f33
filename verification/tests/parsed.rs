use quote::ToTokens;
use rph_core::{
    flatten_type_path, rph, rphize, rphize_impl, Annotation, ExpansionError, GenericArgument,
    ImplBlock, MonomoInput, PathArguments, PathSegment, TypePath,
};
use syn::ext::IdentExt;
use syn::parse::Parser;

fn model_of(path: &syn::Path) -> TypePath {
    let mut segments = Vec::new();
    for segment in path.segments.iter() {
        let arguments = match &segment.arguments {
            syn::PathArguments::None => PathArguments::Bare,
            syn::PathArguments::Parenthesized(_) => PathArguments::Parenthesized,
            syn::PathArguments::AngleBracketed(list) => PathArguments::AngleBracketed(
                list.args
                    .iter()
                    .map(|arg| match arg {
                        syn::GenericArgument::Type(syn::Type::Path(inner)) => {
                            GenericArgument::Type(model_of(&inner.path))
                        }
                        syn::GenericArgument::Lifetime(_) => GenericArgument::Lifetime,
                        _ => GenericArgument::Other,
                    })
                    .collect(),
            ),
        };
        segments.push(PathSegment { name: segment.ident.unraw().to_string(), arguments });
    }
    TypePath { segments }
}

fn parse_path(text: &str) -> TypePath {
    let parsed: syn::TypePath = syn::parse_str(text).unwrap();
    model_of(&parsed.path)
}

fn parse_attrs(text: &str) -> Vec<syn::Attribute> {
    syn::Attribute::parse_outer.parse_str(text).unwrap()
}

fn text_of<T: ToTokens>(value: &T) -> String {
    value.to_token_stream().to_string()
}

#[test]
fn parsed_comparable_i32_flattens() {
    assert_eq!(flatten_type_path(&parse_path("Comparable<i32>")), Ok("Comparable_i32".to_string()));
}

#[test]
fn parsed_nested_path_flattens() {
    assert_eq!(
        flatten_type_path(&parse_path("Map<Key, Value<Inner>>")),
        Ok("Map_Key_Value_Inner".to_string())
    );
}

#[test]
fn parsed_qualified_path_flattens_by_last_segments() {
    assert_eq!(
        flatten_type_path(&parse_path("std::collections::HashMap<std::string::String, Vec<u8>>")),
        Ok("HashMap_String_Vec_u8".to_string())
    );
}

#[test]
fn parsed_raw_identifier_loses_its_prefix() {
    assert_eq!(flatten_type_path(&parse_path("Foo<r#type>")), Ok("Foo_type".to_string()));
}

#[test]
fn parsed_arguments_keep_their_kind() {
    let path = parse_path("Foo<'a, Bar, 3>");
    assert_eq!(
        path,
        TypePath {
            segments: vec![PathSegment {
                name: "Foo".to_string(),
                arguments: PathArguments::AngleBracketed(vec![
                    GenericArgument::Lifetime,
                    GenericArgument::Type(TypePath {
                        segments: vec![PathSegment {
                            name: "Bar".to_string(),
                            arguments: PathArguments::Bare,
                        }],
                    }),
                    GenericArgument::Other,
                ]),
            }],
        }
    );
}

#[test]
fn parsed_lifetime_argument_is_rejected() {
    assert_eq!(
        flatten_type_path(&parse_path("Foo<'a>")),
        Err(ExpansionError::UnsupportedArgument)
    );
}

#[test]
fn parsed_reference_argument_is_rejected() {
    assert_eq!(
        flatten_type_path(&parse_path("Foo<&str>")),
        Err(ExpansionError::UnsupportedArgument)
    );
    assert_eq!(
        flatten_type_path(&parse_path("Foo<Bar, 3>")),
        Err(ExpansionError::UnsupportedArgument)
    );
}

#[test]
fn parsed_declaration_of_comparable_i32() {
    let input: MonomoInput<syn::Attribute> =
        MonomoInput { attrs: parse_attrs(""), path: parse_path("Comparable<i32>") };
    let decl = rphize(input).ok().unwrap();
    assert_eq!(decl.name, "__Comparable_i32");
    assert_eq!(decl.supertrait, parse_path("Comparable<i32>"));
    assert_eq!(decl.annotations.len(), 1);
    assert!(matches!(decl.annotations[0], Annotation::AllowNonCamelCaseTypes));
}

#[test]
fn parsed_declaration_forwards_attributes() {
    let input = MonomoInput {
        attrs: parse_attrs("#[cfg(test)] #[doc = \"marker\"]"),
        path: parse_path("Serializable<JsonFormat>"),
    };
    let decl = rphize(input).ok().unwrap();
    assert_eq!(decl.name, "__Serializable_JsonFormat");
    assert_eq!(decl.annotations.len(), 3);
    assert!(matches!(decl.annotations[0], Annotation::AllowNonCamelCaseTypes));
    match &decl.annotations[1] {
        Annotation::Forwarded(attr) => assert_eq!(text_of(attr), text_of(&parse_attrs("#[cfg(test)]")[0])),
        Annotation::AllowNonCamelCaseTypes => panic!("the first attribute is missing"),
    }
    match &decl.annotations[2] {
        Annotation::Forwarded(attr) => {
            assert_eq!(text_of(attr), text_of(&parse_attrs("#[doc = \"marker\"]")[0]))
        }
        Annotation::AllowNonCamelCaseTypes => panic!("the second attribute is missing"),
    }
}

#[test]
fn parsed_reference_to_comparable_i32() {
    let input: MonomoInput<syn::Attribute> =
        MonomoInput { attrs: parse_attrs(""), path: parse_path("Comparable<i32>") };
    assert_eq!(rph(input).ok().unwrap().trait_name, "__Comparable_i32");
}

#[test]
fn parsed_impl_block_is_rewritten() {
    let mut item: syn::ItemImpl =
        syn::parse_str("#[cfg(test)] #[allow(dead_code)] impl T<X> for Y { fn f(&self) {} }").unwrap();
    let attrs = std::mem::take(&mut item.attrs);
    let block = ImplBlock {
        attrs,
        trait_path: item.trait_.as_ref().map(|t| model_of(&t.1)),
        self_ty: (*item.self_ty).clone(),
        body: item,
    };
    let pair = rphize_impl(block).ok().unwrap();
    assert_eq!(pair.marker_trait, "__T_X");
    assert_eq!(pair.marker_attrs.len(), 2);
    assert_eq!(text_of(&pair.marker_attrs[0]), text_of(&parse_attrs("#[cfg(test)]")[0]));
    assert_eq!(text_of(&pair.marker_attrs[1]), text_of(&parse_attrs("#[allow(dead_code)]")[0]));
    assert!(pair.original.attrs.is_empty());
    assert_eq!(text_of(pair.receiving_type()), "Y");
    let expected: syn::ItemImpl = syn::parse_str("impl T<X> for Y { fn f(&self) {} }").unwrap();
    assert_eq!(text_of(&pair.original.body), text_of(&expected));
}

#[test]
fn parsed_inherent_impl_is_rejected() {
    let mut item: syn::ItemImpl = syn::parse_str("impl Y { fn f(&self) {} }").unwrap();
    let attrs = std::mem::take(&mut item.attrs);
    let block = ImplBlock {
        attrs,
        trait_path: item.trait_.as_ref().map(|t| model_of(&t.1)),
        self_ty: (*item.self_ty).clone(),
        body: item,
    };
    assert_eq!(rphize_impl(block).err(), Some(ExpansionError::NoTrait));
}

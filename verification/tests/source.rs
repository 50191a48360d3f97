use frei0r_rs::derive::{derive_plugin_base, Data, DeriveInput, Fields, ParamEntry};
use frei0r_rs::directive::{ErrorKind, Meta};
use frei0r_rs::field::{AttrArgs, Attribute, Field, TextExpr};
use frei0r_rs::kinds::ParamType;
use quote::ToTokens;
use syn::punctuated::Punctuated;

fn entry(meta: syn::Meta) -> Meta {
    match meta {
        syn::Meta::Path(path) => Meta::Path(path.get_ident().map(|word| word.to_string())),
        syn::Meta::NameValue(pair) => Meta::NameValue(
            pair.path.get_ident().map(|word| word.to_string()),
            pair.value.to_token_stream().to_string(),
        ),
        syn::Meta::List(_) => Meta::List,
    }
}

fn attribute(attr: &syn::Attribute) -> Attribute {
    let args = match &attr.meta {
        syn::Meta::Path(_) => AttrArgs::Path,
        syn::Meta::NameValue(_) => AttrArgs::NameValue,
        syn::Meta::List(_) => match attr.parse_args_with(Punctuated::<syn::Meta, syn::token::Comma>::parse_terminated) {
            Ok(list) => AttrArgs::List(list.into_iter().map(entry).collect()),
            Err(error) => AttrArgs::Malformed(error.to_string()),
        },
    };
    Attribute { path: attr.path().get_ident().map(|word| word.to_string()), args }
}

fn name_of_type(ty: &syn::Type) -> String {
    match ty {
        syn::Type::Path(path) if path.qself.is_none() => match path.path.segments.last() {
            Some(last) if last.arguments.is_none() => last.ident.to_string(),
            _ => ty.to_token_stream().to_string(),
        },
        _ => ty.to_token_stream().to_string(),
    }
}

fn declaration(source: &str) -> DeriveInput {
    let input: syn::DeriveInput = syn::parse_str(source).unwrap();
    let data = match &input.data {
        syn::Data::Struct(data) => Data::Struct(match &data.fields {
            syn::Fields::Named(fields) => Fields::Named(
                fields
                    .named
                    .iter()
                    .map(|field| Field {
                        attrs: field.attrs.iter().map(attribute).collect(),
                        ident: field.ident.as_ref().unwrap().to_string(),
                        ty: name_of_type(&field.ty),
                    })
                    .collect(),
            ),
            syn::Fields::Unnamed(_) => Fields::Unnamed,
            syn::Fields::Unit => Fields::Unit,
        }),
        syn::Data::Enum(_) => Data::Enum,
        syn::Data::Union(_) => Data::Union,
    };
    DeriveInput { ident: input.ident.to_string(), data }
}

#[test]
fn a_declared_plugin_type_gives_its_table() {
    let table = derive_plugin_base(declaration(
        r##"
        /// An effect.
        #[derive(Debug)]
        pub struct Effect {
            opacity: f64,
            #[frei0r(rename = c"active")]
            enabled: bool,
            #[frei0r(skip)]
            label: std::ffi::CString,
        }
        "##,
    ))
    .unwrap();
    assert_eq!(table.ident, "Effect");
    assert_eq!(table.param_count(), 2);
    assert_eq!(table.param_info(0).name, TextExpr::Ident("opacity".to_string()));
    assert_eq!(table.param_info(0).kind, ParamType::Double);
    assert_eq!(table.param_info(1).name, TextExpr::Given("c\"active\"".to_string()));
    assert_eq!(table.param_info(1).kind, ParamType::Bool);
}

#[test]
fn every_parameter_type_is_known_by_its_name() {
    let table = derive_plugin_base(declaration(
        r##"
        struct All<'a, T: Clone> {
            #[doc = "on or off"]
            #[frei0r(explain = c"Whether it is on")]
            on: bool,
            #[frei0r(skip)]
            cache: Vec<&'a T>,
            level: f64,
            #[frei0r(rename = c"colour", explain = EXPLAIN_TINT)]
            tint: frei0r_rs::Color,
            #[frei0r(skip,)]
            frames: usize,
            at: Position,
            #[serde(rename = "t", skip)]
            #[frei0r()]
            title: ::std::ffi::CString,
        }
        "##,
    ))
    .unwrap();
    assert_eq!(
        table.params,
        vec![
            ParamEntry {
                field: "on".to_string(),
                ty: "bool".to_string(),
                name: TextExpr::Ident("on".to_string()),
                kind: ParamType::Bool,
                explanation: TextExpr::Given("c\"Whether it is on\"".to_string()),
            },
            ParamEntry {
                field: "level".to_string(),
                ty: "f64".to_string(),
                name: TextExpr::Ident("level".to_string()),
                kind: ParamType::Double,
                explanation: TextExpr::Empty,
            },
            ParamEntry {
                field: "tint".to_string(),
                ty: "Color".to_string(),
                name: TextExpr::Given("c\"colour\"".to_string()),
                kind: ParamType::Color,
                explanation: TextExpr::Given("EXPLAIN_TINT".to_string()),
            },
            ParamEntry {
                field: "at".to_string(),
                ty: "Position".to_string(),
                name: TextExpr::Ident("at".to_string()),
                kind: ParamType::Position,
                explanation: TextExpr::Empty,
            },
            ParamEntry {
                field: "title".to_string(),
                ty: "CString".to_string(),
                name: TextExpr::Ident("title".to_string()),
                kind: ParamType::String,
                explanation: TextExpr::Empty,
            },
        ]
    );
}

#[test]
fn what_is_no_struct_with_named_fields_gives_no_table() {
    for source in ["struct Pair(f64, f64);", "struct Nothing;", "enum Mode { A, B }", "union Bits { a: u32, b: f32 }"] {
        assert_eq!(derive_plugin_base(declaration(source)).unwrap_err().kind, ErrorKind::NotNamedStruct, "{source}");
    }
}

#[test]
fn written_directives_are_held_to_the_rules() {
    let cases = [
        ("struct E { #[frei0r(skip, skip)] a: f64 }", ErrorKind::DuplicateSkip),
        ("struct E { #[frei0r(skip)] #[frei0r(skip)] a: f64 }", ErrorKind::DuplicateSkip),
        ("struct E { #[frei0r(rename = c\"a\", rename = c\"b\")] a: f64 }", ErrorKind::DuplicateRename),
        ("struct E { #[frei0r(explain = c\"a\")] #[frei0r(explain = c\"b\")] a: f64 }", ErrorKind::DuplicateExplain),
        ("struct E { #[frei0r(rename = c\"a\", skip)] a: f64 }", ErrorKind::SkipWithOther),
        ("struct E { #[frei0r(skip, explain = c\"a\")] a: f64 }", ErrorKind::SkipWithOther),
        ("struct E { #[frei0r(hidden)] a: f64 }", ErrorKind::UnknownAttribute),
        ("struct E { #[frei0r(skip(now))] a: f64 }", ErrorKind::UnknownAttribute),
        ("struct E { #[frei0r(frei0r::skip)] a: f64 }", ErrorKind::ExpectedIdent),
        ("struct E { #[frei0r(skip skip)] a: f64 }", ErrorKind::Syntax),
        ("struct E { #[frei0r(rename c\"a\")] a: f64 }", ErrorKind::Syntax),
        ("struct E { #[frei0r] a: f64 }", ErrorKind::MissingArguments),
        ("struct E { #[frei0r = \"skip\"] a: f64 }", ErrorKind::ExpectedParentheses),
        ("struct E { a: f32 }", ErrorKind::UnsupportedType),
        ("struct E { a: Option<bool> }", ErrorKind::UnsupportedType),
        ("struct E { a: &'static str }", ErrorKind::UnsupportedType),
        ("struct E { a: f32, #[frei0r(skip, skip)] b: f64 }", ErrorKind::DuplicateSkip),
    ];
    for (source, kind) in cases {
        assert_eq!(derive_plugin_base(declaration(source)).unwrap_err().kind, kind, "{source}");
    }
}

#[test]
fn the_words_of_the_parser_are_kept() {
    let error = derive_plugin_base(declaration("struct E { #[frei0r(skip skip)] a: f64 }")).unwrap_err();
    assert_eq!(error.kind, ErrorKind::Syntax);
    assert_eq!(error.message, "expected `,`");
}

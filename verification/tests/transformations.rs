use macro_model::ast::{AttrMeta, FieldDecl, FnDecl, GenField, GenStruct, LitValue, MacroError,
    NestedArg, VecExpansion, VecStmt};
use macro_model::derivator::{change_derive_impl, change_derive_source, get_ident};
use macro_model::expander::{eval_expansion, expand_vec_source, my_vec};
use macro_model::ident::is_valid_ident;
use macro_model::render::{render_expansion, render_fn, render_struct};
use macro_model::renamer::{rename, rename_source};

fn name_attr(value: &str) -> AttrMeta {
    AttrMeta::KeyValue { key: "name".to_string(), lit: LitValue::Str(value.to_string()) }
}

fn sample_fn() -> FnDecl {
    FnDecl { before: "fn".to_string(), name: "hello".to_string(), rest: "() {}".to_string() }
}

#[test]
fn rename_replaces_only_the_name() {
    let out = rename(&name_attr("world"), &sample_fn()).unwrap();
    assert_eq!(out.name, "world");
    assert_eq!(out.before, "fn");
    assert_eq!(out.rest, "() {}");
}

#[test]
fn rename_rejects_wrong_key() {
    let attr = AttrMeta::KeyValue {
        key: "path".to_string(),
        lit: LitValue::Str("world".to_string()),
    };
    assert_eq!(rename(&attr, &sample_fn()).unwrap_err(), MacroError::UnsupportedAttr);
}

#[test]
fn rename_rejects_non_string_literal() {
    let attr = AttrMeta::KeyValue { key: "name".to_string(), lit: LitValue::Other };
    assert_eq!(rename(&attr, &sample_fn()).unwrap_err(), MacroError::UnsupportedAttr);
}

#[test]
fn rename_rejects_list_shape() {
    let attr = AttrMeta::ArgList { key: "name".to_string(), args: vec![] };
    assert_eq!(rename(&attr, &sample_fn()).unwrap_err(), MacroError::UnsupportedAttr);
    assert_eq!(rename(&AttrMeta::Opaque, &sample_fn()).unwrap_err(), MacroError::UnsupportedAttr);
}

#[test]
fn rename_rejects_invalid_identifier() {
    assert_eq!(rename(&name_attr("123abc"), &sample_fn()).unwrap_err(), MacroError::InvalidIdent);
    assert_eq!(rename(&name_attr(""), &sample_fn()).unwrap_err(), MacroError::InvalidIdent);
    assert_eq!(rename(&name_attr("a b"), &sample_fn()).unwrap_err(), MacroError::InvalidIdent);
    assert_eq!(rename(&name_attr("a-b"), &sample_fn()).unwrap_err(), MacroError::InvalidIdent);
    assert_eq!(rename(&name_attr("r#foo"), &sample_fn()).unwrap_err(), MacroError::InvalidIdent);
}

#[test]
fn rename_accepts_host_identifiers() {
    let non_ascii = rename(&name_attr("caf\u{00e9}"), &sample_fn()).unwrap();
    assert_eq!(non_ascii.name, "caf\u{00e9}");
    assert_eq!(non_ascii.rest, "() {}");
    let underscore = rename(&name_attr("_"), &sample_fn()).unwrap();
    assert_eq!(underscore.name, "_");
    let keyword = rename(&name_attr("fn"), &sample_fn()).unwrap();
    assert_eq!(keyword.name, "fn");
}

#[test]
fn rename_source_end_to_end() {
    let out = rename_source("name = \"world\"", "pub fn hello(a: u32) -> u32 { a }").unwrap();
    assert_eq!(out.name, "world");
    assert_eq!(out.before, "pub fn");
    let rendered = render_fn(&out);
    let reparsed: syn::ItemFn = syn::parse_str(&rendered).unwrap();
    assert_eq!(reparsed.sig.ident.to_string(), "world");
    assert_eq!(reparsed.sig.inputs.len(), 1);
}

#[test]
fn rename_source_non_ascii_name_end_to_end() {
    let out = rename_source("name = \"caf\u{00e9}\"", "fn hello() {}").unwrap();
    let reparsed: syn::ItemFn = syn::parse_str(&render_fn(&out)).unwrap();
    assert_eq!(reparsed.sig.ident.to_string(), "caf\u{00e9}");
}

#[test]
fn rename_source_keeps_inner_attribute_in_body() {
    let out = rename_source(
        "name = \"g\"",
        "#[inline] fn f() { #![allow(unused)] let x = 1; }",
    )
    .unwrap();
    let rendered = render_fn(&out);
    let reparsed: syn::ItemFn = syn::parse_str(&rendered).unwrap();
    assert_eq!(reparsed.sig.ident.to_string(), "g");
    assert_eq!(reparsed.attrs.len(), 2);
    assert!(matches!(reparsed.attrs[0].style, syn::AttrStyle::Outer));
    assert!(matches!(reparsed.attrs[1].style, syn::AttrStyle::Inner(_)));
    assert_eq!(reparsed.block.stmts.len(), 1);
}

#[test]
fn rename_source_rejects_non_function() {
    assert_eq!(
        rename_source("name = \"world\"", "struct S;").unwrap_err(),
        MacroError::ExpectedFunction
    );
}

#[test]
fn rename_source_rejects_unparsable_annotation() {
    assert_eq!(
        rename_source("name = ", "fn hello() {}").unwrap_err(),
        MacroError::UnsupportedAttr
    );
}

fn strings(xs: &[&str]) -> Vec<String> {
    xs.iter().map(|s| s.to_string()).collect()
}

#[test]
fn my_vec_builds_pushes_in_order() {
    let b = my_vec(&strings(&["1", "2", "3"]));
    assert_eq!(b.stmts.len(), 5);
    assert!(matches!(b.stmts[0], VecStmt::Init));
    assert!(matches!(&b.stmts[2], VecStmt::Push(e) if e == "2"));
    assert!(matches!(b.stmts[4], VecStmt::Finish));
    assert_eq!(eval_expansion(&b), Some(strings(&["1", "2", "3"])));
}

#[test]
fn my_vec_empty_list_evaluates_empty() {
    let b = my_vec(&strings(&[]));
    assert_eq!(b.stmts.len(), 2);
    assert_eq!(eval_expansion(&b), Some(vec![]));
}

#[test]
fn expand_vec_source_splits_elements() {
    let b = expand_vec_source("1, 2, 3").unwrap();
    assert_eq!(eval_expansion(&b), Some(strings(&["1", "2", "3"])));
}

#[test]
fn expand_vec_source_keeps_nested_commas_together() {
    let b = expand_vec_source("f(1, 2), 3").unwrap();
    let vals = eval_expansion(&b).unwrap();
    assert_eq!(vals.len(), 2);
    assert_eq!(vals[1], "3");
}

#[test]
fn expand_vec_source_rejects_malformed_lists() {
    assert!(expand_vec_source("1,,").is_none());
    assert!(expand_vec_source(")").is_none());
}

#[test]
fn eval_expansion_rejects_foreign_shapes() {
    let lone_push = VecExpansion { stmts: vec![VecStmt::Push("1".to_string())] };
    assert_eq!(eval_expansion(&lone_push), None);
    let no_finish = VecExpansion { stmts: vec![VecStmt::Init, VecStmt::Push("1".to_string())] };
    assert_eq!(eval_expansion(&no_finish), None);
    let double_init = VecExpansion { stmts: vec![VecStmt::Init, VecStmt::Init, VecStmt::Finish] };
    assert_eq!(eval_expansion(&double_init), None);
    let lone_init = VecExpansion { stmts: vec![VecStmt::Init] };
    assert_eq!(eval_expansion(&lone_init), None);
}

#[test]
fn render_expansion_exact_text() {
    let b = my_vec(&strings(&["1", "2"]));
    assert_eq!(
        render_expansion(&b),
        "{ let mut _vec = std::vec::Vec::new(); _vec.push(1); _vec.push(2); _vec }"
    );
}

fn rename_list(inner_key: &str, value: &str) -> AttrMeta {
    AttrMeta::ArgList {
        key: "rename".to_string(),
        args: vec![NestedArg::KeyValue {
            key: inner_key.to_string(),
            lit: LitValue::Str(value.to_string()),
        }],
    }
}

fn field(name: &str, ty: &str, attrs: Vec<AttrMeta>) -> FieldDecl {
    FieldDecl { name: name.to_string(), ty: ty.to_string(), attrs }
}

#[test]
fn get_ident_finds_replacement() {
    let f = field("count", "u32", vec![rename_list("name", "total")]);
    assert_eq!(get_ident(&f), Some("total".to_string()));
}

#[test]
fn get_ident_ignores_other_inner_key() {
    let f = field("count", "u32", vec![rename_list("other", "x")]);
    assert_eq!(get_ident(&f), None);
}

#[test]
fn get_ident_honors_first_match_only() {
    let f = field("count", "u32", vec![rename_list("name", "a"), rename_list("name", "b")]);
    assert_eq!(get_ident(&f), Some("a".to_string()));
}

#[test]
fn get_ident_skips_unmatched_shapes() {
    let f = field(
        "count",
        "u32",
        vec![
            AttrMeta::Word { key: "rename".to_string() },
            AttrMeta::ArgList { key: "rename".to_string(), args: vec![] },
            AttrMeta::Opaque,
            rename_list("name", "z"),
        ],
    );
    assert_eq!(get_ident(&f), Some("z".to_string()));
}

#[test]
fn derive_source_plain_field_unchanged() {
    let g = change_derive_source("struct Point { count: u32 }").unwrap();
    assert_eq!(g.name, "PointNewer");
    assert_eq!(g.fields.len(), 1);
    assert_eq!(g.fields[0].name, "count");
    assert_eq!(g.fields[0].ty, "u32");
}

#[test]
fn derive_source_renamed_field() {
    let g = change_derive_source(
        "struct Point { #[rename(name = \"total\")] count: u32 }",
    )
    .unwrap();
    assert_eq!(g.name, "PointNewer");
    assert_eq!(g.fields[0].name, "total");
    assert_eq!(g.fields[0].ty, "u32");
}

#[test]
fn derive_source_other_key_falls_through() {
    let g = change_derive_source(
        "struct Point { #[rename(other = \"x\")] count: u32 }",
    )
    .unwrap();
    assert_eq!(g.fields[0].name, "count");
}

#[test]
fn derive_source_first_annotation_wins() {
    let g = change_derive_source(
        "struct Point { #[rename(name = \"a\")] #[rename(name = \"b\")] count: u32 }",
    )
    .unwrap();
    assert_eq!(g.fields[0].name, "a");
}

#[test]
fn derive_source_keeps_field_order_and_types() {
    let g = change_derive_source(
        "struct Pair { #[rename(name = \"left\")] a: i64, b: Vec<String> }",
    )
    .unwrap();
    assert_eq!(g.name, "PairNewer");
    assert_eq!(g.fields.len(), 2);
    assert_eq!(g.fields[0].name, "left");
    assert_eq!(g.fields[0].ty, "i64");
    assert_eq!(g.fields[1].name, "b");
    assert_eq!(g.fields[1].ty, "Vec < String >");
}

#[test]
fn derive_source_rejects_non_struct_items() {
    assert_eq!(change_derive_source("enum E { A, B }").unwrap_err(), MacroError::ExpectedStruct);
    assert_eq!(change_derive_source("struct P(u32);").unwrap_err(), MacroError::ExpectedStruct);
    assert_eq!(change_derive_source("not rust at all").unwrap_err(), MacroError::ExpectedStruct);
}

#[test]
fn derive_model_rejects_unsupported_data() {
    let input = macro_model::ast::InputDecl {
        name: "E".to_string(),
        data: macro_model::ast::ItemData::Unsupported,
    };
    assert_eq!(change_derive_impl(&input).unwrap_err(), MacroError::ExpectedStruct);
}

#[test]
fn render_struct_exact_text() {
    let g = GenStruct {
        name: "PointNewer".to_string(),
        fields: vec![GenField { name: "count".to_string(), ty: "u32".to_string() }],
    };
    assert_eq!(render_struct(&g), "pub struct PointNewer { count : u32 , }");
    let reparsed: syn::DeriveInput = syn::parse_str(&render_struct(&g)).unwrap();
    assert_eq!(reparsed.ident.to_string(), "PointNewer");
}

#[test]
fn valid_identifier_shapes() {
    assert!(is_valid_ident("abc"));
    assert!(is_valid_ident("_x"));
    assert!(is_valid_ident("a1_b2"));
    assert!(is_valid_ident("A"));
    assert!(is_valid_ident("_"));
    assert!(is_valid_ident("caf\u{00e9}"));
    assert!(is_valid_ident("fn"));
    assert!(!is_valid_ident(""));
    assert!(!is_valid_ident("9x"));
    assert!(!is_valid_ident("a-b"));
    assert!(!is_valid_ident("a b"));
}

#[test]
fn error_messages() {
    assert_eq!(
        MacroError::UnsupportedAttr.message(),
        "only support NameValue attr, like [rename(path = \"fun_1\")]"
    );
    assert_eq!(
        MacroError::InvalidIdent.message(),
        "the replacement name is not a valid identifier"
    );
    assert_eq!(MacroError::ExpectedFunction.message(), "expect fn");
    assert_eq!(MacroError::ExpectedStruct.message(), "expect struct");
}

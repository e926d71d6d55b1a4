//! The trusted boundary to the `syn` and `quote` crates: parsing source text
//! into the crate's own fragment types, and printing `syn` values back as
//! token text. Each parse result is a function of the input text alone, so
//! each parser's contract pins its result to an uninterpreted name; the
//! printing helpers convert one outside value each and promise nothing.
//! Every decision taken on the parsed fragments is made by the verified code
//! in the other modules.

use vstd::prelude::*;
use quote::ToTokens;
use crate::ast::{AttrMeta, FieldDecl, FnDecl, InputDecl, ItemData, LitValue, NestedArg};

verus! {

#[verifier::external_type_specification]
#[verifier::external_body]
pub struct ExMeta(syn::Meta);

#[verifier::external_type_specification]
#[verifier::external_body]
pub struct ExNestedMeta(syn::NestedMeta);

#[verifier::external_type_specification]
#[verifier::external_body]
pub struct ExLit(syn::Lit);

#[verifier::external_type_specification]
#[verifier::external_body]
pub struct ExPath(syn::Path);

#[verifier::external_type_specification]
#[verifier::external_body]
pub struct ExAttribute(syn::Attribute);

#[verifier::external_type_specification]
#[verifier::external_body]
pub struct ExField(syn::Field);

#[verifier::external_type_specification]
#[verifier::external_body]
pub struct ExItemFn(syn::ItemFn);

/// What annotation argument text parses to, if anything.
pub uninterp spec fn parsed_meta(s: Seq<char>) -> Option<AttrMeta>;

/// What function declaration text parses to, if anything.
pub uninterp spec fn parsed_fn(s: Seq<char>) -> Option<FnDecl>;

/// What comma-separated element text splits into, if anything.
pub uninterp spec fn parsed_exprs(s: Seq<char>) -> Option<Vec<String>>;

/// What item text handed to the derivation parses to, if anything.
pub uninterp spec fn parsed_derive_input(s: Seq<char>) -> Option<InputDecl>;

/// Relies on syn::Path: the identifier of its first segment, or the empty
/// string for a path with no segments, which `syn` never parses.
#[verifier::external_body]
pub(crate) fn path_key(p: &syn::Path) -> (r: String) {
    match p.segments.first() {
        Some(seg) => seg.ident.to_string(),
        None => String::new(),
    }
}

/// Relies on syn::Lit and syn::LitStr::value: the contents of a string
/// literal; every other literal kind is kept opaque.
#[verifier::external_body]
pub(crate) fn lit_model(l: &syn::Lit) -> (r: LitValue) {
    match l {
        syn::Lit::Str(s) => LitValue::Str(s.value()),
        _ => LitValue::Other,
    }
}

/// Relies on syn::NestedMeta: a nested `key = "value"` pair is reduced to its
/// parts; every other nested shape is kept opaque.
#[verifier::external_body]
pub(crate) fn nested_model(n: &syn::NestedMeta) -> (r: NestedArg) {
    match n {
        syn::NestedMeta::Meta(syn::Meta::NameValue(nv)) => NestedArg::KeyValue {
            key: path_key(&nv.path),
            lit: lit_model(&nv.lit),
        },
        _ => NestedArg::Other,
    }
}

/// Relies on syn::Meta: each of its three shapes is reduced to the first path
/// segment and the arguments, one arm per shape.
#[verifier::external_body]
pub(crate) fn meta_model(m: &syn::Meta) -> (r: AttrMeta) {
    match m {
        syn::Meta::Path(p) => AttrMeta::Word { key: path_key(p) },
        syn::Meta::NameValue(nv) => AttrMeta::KeyValue {
            key: path_key(&nv.path),
            lit: lit_model(&nv.lit),
        },
        syn::Meta::List(l) => AttrMeta::ArgList {
            key: path_key(&l.path),
            args: l.nested.iter().map(|n| nested_model(n)).collect(),
        },
    }
}

/// Relies on syn::parse_str::<syn::Meta> to parse annotation argument text,
/// such as `name = "world"`; the result is a function of the text alone,
/// named `parsed_meta`.
#[verifier::external_body]
pub(crate) fn parse_meta_text(src: &str) -> (r: Option<AttrMeta>)
    ensures
        r == parsed_meta(src@),
{
    match syn::parse_str::<syn::Meta>(src) {
        Ok(m) => Some(meta_model(&m)),
        Err(_) => None,
    }
}

/// Relies on syn::Attribute::parse_meta; an attribute whose arguments do not
/// parse as a structured meta item is kept opaque.
#[verifier::external_body]
pub(crate) fn attr_model(a: &syn::Attribute) -> (r: AttrMeta) {
    match a.parse_meta() {
        Ok(m) => meta_model(&m),
        Err(_) => AttrMeta::Opaque,
    }
}

/// Relies on syn::ItemFn: the declared name of the function.
#[verifier::external_body]
pub(crate) fn fn_name_text(f: &syn::ItemFn) -> (r: String) {
    f.sig.ident.to_string()
}

/// Relies on quote::ToTokens for the parts of syn::ItemFn that precede the
/// name, printed the way syn::ItemFn prints itself: the outer attributes,
/// visibility, the qualifiers and the `fn` keyword. Inner attributes belong
/// to the body and are printed there.
#[verifier::external_body]
pub(crate) fn fn_before_text(f: &syn::ItemFn) -> (r: String) {
    let mut ts = proc_macro2::TokenStream::new();
    for a in f.attrs.iter() {
        if matches!(a.style, syn::AttrStyle::Outer) {
            a.to_tokens(&mut ts);
        }
    }
    f.vis.to_tokens(&mut ts);
    f.sig.constness.to_tokens(&mut ts);
    f.sig.asyncness.to_tokens(&mut ts);
    f.sig.unsafety.to_tokens(&mut ts);
    f.sig.abi.to_tokens(&mut ts);
    f.sig.fn_token.to_tokens(&mut ts);
    ts.to_string()
}

/// Relies on quote::ToTokens for the signature parts that follow the name,
/// printed the way syn::Signature prints itself: generics, parenthesized
/// parameters with syn's separating comma before a variadic, return type and
/// where clause.
#[verifier::external_body]
pub(crate) fn fn_sig_rest_text(f: &syn::ItemFn) -> (r: String) {
    let mut ts = proc_macro2::TokenStream::new();
    f.sig.generics.to_tokens(&mut ts);
    let mut inner = proc_macro2::TokenStream::new();
    f.sig.inputs.to_tokens(&mut inner);
    if f.sig.variadic.is_some() && !f.sig.inputs.empty_or_trailing() {
        syn::token::Comma::default().to_tokens(&mut inner);
    }
    f.sig.variadic.to_tokens(&mut inner);
    let group = proc_macro2::Group::new(proc_macro2::Delimiter::Parenthesis, inner);
    ts.extend(core::iter::once(proc_macro2::TokenTree::Group(group)));
    f.sig.output.to_tokens(&mut ts);
    f.sig.generics.where_clause.to_tokens(&mut ts);
    ts.to_string()
}

/// Relies on quote::ToTokens for the function body, printed the way
/// syn::ItemFn prints itself: the declaration's inner attributes first, then
/// the block's statements, inside braces.
#[verifier::external_body]
pub(crate) fn fn_body_text(f: &syn::ItemFn) -> (r: String) {
    let mut body = proc_macro2::TokenStream::new();
    for a in f.attrs.iter() {
        if matches!(a.style, syn::AttrStyle::Inner(_)) {
            a.to_tokens(&mut body);
        }
    }
    for st in f.block.stmts.iter() {
        st.to_tokens(&mut body);
    }
    let group = proc_macro2::Group::new(proc_macro2::Delimiter::Brace, body);
    proc_macro2::TokenTree::Group(group).to_string()
}

/// Relies on syn::parse_str::<syn::ItemFn> to parse a function declaration
/// into its fragment: the name, and the token text before and after it; the
/// result is a function of the text alone, named `parsed_fn`.
#[verifier::external_body]
pub(crate) fn parse_fn_decl(src: &str) -> (r: Option<FnDecl>)
    ensures
        r == parsed_fn(src@),
{
    match syn::parse_str::<syn::ItemFn>(src) {
        Ok(f) => {
            let rest = format!("{} {}", fn_sig_rest_text(&f), fn_body_text(&f));
            Some(FnDecl { before: fn_before_text(&f), name: fn_name_text(&f), rest })
        },
        Err(_) => None,
    }
}

/// Relies on syn::parse_str::<syn::ExprArray> to split bracketed text into
/// element expressions, and on quote::ToTokens to print each element back;
/// the result is a function of the text alone, named `parsed_exprs`.
#[verifier::external_body]
pub(crate) fn parse_expr_list_text(src: &str) -> (r: Option<Vec<String>>)
    ensures
        r == parsed_exprs(src@),
{
    let wrapped = format!("[{}]", src);
    match syn::parse_str::<syn::ExprArray>(&wrapped) {
        Ok(arr) => Some(arr.elems.iter().map(|e| e.to_token_stream().to_string()).collect()),
        Err(_) => None,
    }
}

/// Relies on syn::Field: its name (named fields always carry one), the token
/// text of its type via quote::ToTokens, and its attributes.
#[verifier::external_body]
pub(crate) fn field_model(f: &syn::Field) -> (r: FieldDecl) {
    let name = match f.ident.as_ref() {
        Some(id) => id.to_string(),
        None => String::new(),
    };
    FieldDecl {
        name,
        ty: f.ty.to_token_stream().to_string(),
        attrs: f.attrs.iter().map(|a| attr_model(a)).collect(),
    }
}

/// Relies on syn::parse_str::<syn::DeriveInput>: the item's name, and its
/// named fields when it is a structure with named fields; any other body is
/// marked unsupported. The result is a function of the text alone, named
/// `parsed_derive_input`.
#[verifier::external_body]
pub(crate) fn parse_derive_text(src: &str) -> (r: Option<InputDecl>)
    ensures
        r == parsed_derive_input(src@),
{
    let di = match syn::parse_str::<syn::DeriveInput>(src) {
        Ok(di) => di,
        Err(_) => return None,
    };
    let data = match di.data {
        syn::Data::Struct(syn::DataStruct { fields: syn::Fields::Named(named), .. }) =>
            ItemData::NamedStruct {
                fields: named.named.iter().map(|f| field_model(f)).collect(),
            },
        _ => ItemData::Unsupported,
    };
    Some(InputDecl { name: di.ident.to_string(), data })
}

} // verus!

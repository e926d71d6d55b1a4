//! Renames a function declaration according to a `name = "..."` annotation:
//! the output is the input declaration with its name replaced and everything
//! else unchanged.

use vstd::prelude::*;
use crate::ast::{AttrMeta, FnDecl, LitValue, MacroError};
use crate::ident::{is_valid_ident, str_eq, valid_ident};
use crate::syntax::{parse_fn_decl, parse_meta_text, parsed_fn, parsed_meta};

verus! {

/// The replacement name the annotation supplies, if it has the one recognized
/// shape: a `key = "value"` pair whose key is `name` and whose value is a
/// string literal. Every other shape is rejected.
pub open spec fn attr_name_arg(m: AttrMeta) -> Option<Seq<char>> {
    match m {
        AttrMeta::KeyValue { key, lit } => match lit {
            LitValue::Str(s) => if key@ == "name"@ {
                Some(s@)
            } else {
                None
            },
            LitValue::Other => None,
        },
        _ => None,
    }
}

/// Everything the renaming promises, for a given annotation, input
/// declaration and result: a `name = "S"` annotation with S a valid
/// identifier yields exactly the input declaration with its name replaced by
/// S; a valid annotation with an invalid identifier yields the
/// invalid-identifier error; every other annotation shape yields the
/// unsupported-annotation error.
pub open spec fn rename_post(attr: AttrMeta, item: FnDecl, r: Result<FnDecl, MacroError>) -> bool {
    match attr_name_arg(attr) {
        Some(s) => {
            if valid_ident(s) {
                r matches Ok(f) && f.name@ == s && f.before@ == item.before@ && f.rest@
                    == item.rest@
            } else {
                r matches Err(e) && e == MacroError::InvalidIdent
            }
        },
        None => r matches Err(e) && e == MacroError::UnsupportedAttr,
    }
}

/// Replaces the declaration's name with the one the annotation supplies and
/// keeps everything around it unchanged. Rejected when the annotation is not
/// a `name = "..."` pair, or when the supplied string is not a valid
/// identifier.
pub fn rename(attr: &AttrMeta, item: &FnDecl) -> (r: Result<FnDecl, MacroError>)
    ensures
        rename_post(*attr, *item, r),
{
    match attr {
        AttrMeta::KeyValue { key, lit: LitValue::Str(s) } => {
            if str_eq(key.as_str(), "name") {
                if is_valid_ident(s.as_str()) {
                    Ok(FnDecl { before: item.before.clone(), name: s.clone(), rest: item.rest.clone() })
                } else {
                    Err(MacroError::InvalidIdent)
                }
            } else {
                Err(MacroError::UnsupportedAttr)
            }
        },
        _ => Err(MacroError::UnsupportedAttr),
    }
}

/// Parses annotation argument text and a function declaration, and renames
/// the declaration: annotation text that does not parse is rejected like any
/// other unrecognized annotation shape; text that does not parse as a
/// function is rejected on its own; and on two parsable inputs the result is
/// exactly that of `rename` on the parsed fragments.
pub fn rename_source(attr_src: &str, item_src: &str) -> (r: Result<FnDecl, MacroError>)
    ensures
        match parsed_meta(attr_src@) {
            None => r matches Err(e) && e == MacroError::UnsupportedAttr,
            Some(attr) => match parsed_fn(item_src@) {
                None => r matches Err(e) && e == MacroError::ExpectedFunction,
                Some(item) => rename_post(attr, item, r),
            },
        },
{
    let attr = match parse_meta_text(attr_src) {
        Some(m) => m,
        None => {
            return Err(MacroError::UnsupportedAttr);
        },
    };
    let item = match parse_fn_decl(item_src) {
        Some(f) => f,
        None => {
            return Err(MacroError::ExpectedFunction);
        },
    };
    rename(&attr, &item)
}

} // verus!

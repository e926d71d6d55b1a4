//! Derives, from a structure with named fields, a mirrored structure: same
//! fields in the same order with the same types, each field keeping its name
//! unless a `rename(name = "...")` annotation on it supplies another, and the
//! structure's name carrying a fixed suffix.

use vstd::prelude::*;
use vstd::string::*;
use crate::ast::{AttrMeta, FieldDecl, GenField, GenStruct, InputDecl, ItemData, LitValue,
    MacroError, NestedArg};
use crate::ident::str_eq;
use crate::syntax::{parse_derive_text, parsed_derive_input};

verus! {

/// The fixed suffix appended to the name of the structure a derivation
/// generates.
pub open spec fn struct_suffix() -> Seq<char> {
    "Newer"@
}

/// The replacement name a single annotation supplies, if it has exactly the
/// recognized shape: a bracketed list whose path is `rename` and whose first
/// argument is `name = "..."` with a string literal. Every other shape
/// supplies nothing and falls through to the field's own name.
pub open spec fn attr_rename_arg(m: AttrMeta) -> Option<Seq<char>> {
    match m {
        AttrMeta::ArgList { key, args } => {
            if key@ == "rename"@ && args@.len() > 0 {
                match args@[0] {
                    NestedArg::KeyValue { key: inner, lit } => match lit {
                        LitValue::Str(s) => if inner@ == "name"@ {
                            Some(s@)
                        } else {
                            None
                        },
                        LitValue::Other => None,
                    },
                    NestedArg::Other => None,
                }
            } else {
                None
            }
        },
        _ => None,
    }
}

/// The replacement name a list of annotations supplies: that of the first
/// annotation with the recognized shape, scanned in attachment order.
pub open spec fn field_rename(attrs: Seq<AttrMeta>) -> Option<Seq<char>>
    decreases attrs.len(),
{
    if attrs.len() == 0 {
        None
    } else {
        match attr_rename_arg(attrs[0]) {
            Some(s) => Some(s),
            None => field_rename(attrs.drop_first()),
        }
    }
}

/// The name a field carries in the generated structure: the replacement its
/// annotations supply, or its own name when they supply none.
pub open spec fn derived_field_name(f: FieldDecl) -> Seq<char> {
    match field_rename(f.attrs@) {
        Some(s) => s,
        None => f.name@,
    }
}

/// What the generated structure must look like for a given input: the input's
/// name with the fixed suffix, and one field per input field, in order, with
/// the same type and the derived name.
pub open spec fn derived_ok(g: GenStruct, name: Seq<char>, fields: Seq<FieldDecl>) -> bool {
    &&& g.name@ == name + struct_suffix()
    &&& g.fields@.len() == fields.len()
    &&& forall|i: int|
        0 <= i < fields.len() ==> {
            &&& (#[trigger] g.fields@[i]).name@ == derived_field_name(fields[i])
            &&& g.fields@[i].ty@ == fields[i].ty@
        }
}

/// Decides `attr_rename_arg` for one annotation.
fn attr_rename(m: &AttrMeta) -> (r: Option<String>)
    ensures
        match &r {
            Some(s) => attr_rename_arg(*m) == Some(s@),
            None => attr_rename_arg(*m) is None,
        },
{
    match m {
        AttrMeta::ArgList { key, args } => {
            if str_eq(key.as_str(), "rename") && args.len() > 0 {
                match &args[0] {
                    NestedArg::KeyValue { key: inner, lit: LitValue::Str(s) } => {
                        if str_eq(inner.as_str(), "name") {
                            Some(s.clone())
                        } else {
                            None
                        }
                    },
                    _ => None,
                }
            } else {
                None
            }
        },
        _ => None,
    }
}

/// Scans a field's annotations in attachment order and returns the first
/// replacement name one of them supplies, or nothing when none does.
pub fn get_ident(field: &FieldDecl) -> (r: Option<String>)
    ensures
        match &r {
            Some(s) => field_rename(field.attrs@) == Some(s@),
            None => field_rename(field.attrs@) is None,
        },
{
    let mut i: usize = 0;
    proof {
        assert(field.attrs@.skip(0) =~= field.attrs@);
    }
    while i < field.attrs.len()
        invariant
            0 <= i <= field.attrs@.len(),
            field_rename(field.attrs@) == field_rename(field.attrs@.skip(i as int)),
        decreases field.attrs@.len() - i,
    {
        let found = attr_rename(&field.attrs[i]);
        proof {
            assert(field.attrs@.skip(i as int)[0] == field.attrs@[i as int]);
            assert(field.attrs@.skip(i as int).drop_first() =~= field.attrs@.skip(i as int + 1));
        }
        if let Some(s) = found {
            return Some(s);
        }
        i = i + 1;
    }
    proof {
        assert(field.attrs@.skip(i as int) =~= Seq::<AttrMeta>::empty());
    }
    None
}

/// Everything the derivation promises, for a given input item and result: a
/// structure with named fields yields exactly the `derived_ok` structure for
/// its name and fields; any other item yields the expected-structure error.
pub open spec fn derive_post(input: InputDecl, r: Result<GenStruct, MacroError>) -> bool {
    match input.data {
        ItemData::NamedStruct { fields } => r matches Ok(g) && derived_ok(
            g,
            input.name@,
            fields@,
        ),
        ItemData::Unsupported => r matches Err(e) && e == MacroError::ExpectedStruct,
    }
}

/// Builds the mirrored structure for an input item: rejected unless the item
/// is a structure with named fields; otherwise the generated structure
/// satisfies `derived_ok` for the input's name and fields.
pub fn change_derive_impl(input: &InputDecl) -> (r: Result<GenStruct, MacroError>)
    ensures
        derive_post(*input, r),
{
    let fields = match &input.data {
        ItemData::NamedStruct { fields } => fields,
        ItemData::Unsupported => {
            return Err(MacroError::ExpectedStruct);
        },
    };
    let mut new_name = input.name.clone();
    new_name.append("Newer");
    let mut gen_fields: Vec<GenField> = Vec::new();
    let mut i: usize = 0;
    while i < fields.len()
        invariant
            0 <= i <= fields@.len(),
            gen_fields@.len() == i,
            forall|j: int|
                0 <= j < i ==> {
                    &&& (#[trigger] gen_fields@[j]).name@ == derived_field_name(fields@[j])
                    &&& gen_fields@[j].ty@ == fields@[j].ty@
                },
        decreases fields@.len() - i,
    {
        let f = &fields[i];
        let name = match get_ident(f) {
            Some(s) => s,
            None => f.name.clone(),
        };
        gen_fields.push(GenField { name, ty: f.ty.clone() });
        i = i + 1;
    }
    Ok(GenStruct { name: new_name, fields: gen_fields })
}

/// Parses an item's source text and builds the mirrored structure for it:
/// text that does not parse as an item is rejected like an unsupported item,
/// and on a parsable item the result is exactly that of `change_derive_impl`
/// on the parsed fragment.
pub fn change_derive_source(src: &str) -> (r: Result<GenStruct, MacroError>)
    ensures
        match parsed_derive_input(src@) {
            None => r matches Err(e) && e == MacroError::ExpectedStruct,
            Some(input) => derive_post(input, r),
        },
{
    let input = match parse_derive_text(src) {
        Some(d) => d,
        None => {
            return Err(MacroError::ExpectedStruct);
        },
    };
    change_derive_impl(&input)
}

/// A rename annotation whose inner key is not `name` does not alter the
/// field's name: a field whose single annotation is such a list falls through
/// to its own name.
pub proof fn lemma_other_key_ignored(
    f: FieldDecl,
    key: String,
    args: Vec<NestedArg>,
    inner: String,
    lit: LitValue,
)
    requires
        f.attrs@ == seq![(AttrMeta::ArgList { key, args })],
        args@.len() > 0,
        args@[0] == (NestedArg::KeyValue { key: inner, lit }),
        inner@ != "name"@,
    ensures
        derived_field_name(f) == f.name@,
{
    let m = AttrMeta::ArgList { key, args };
    assert(attr_rename_arg(m) is None);
    assert(f.attrs@[0] == m);
    assert(f.attrs@.drop_first() =~= Seq::<AttrMeta>::empty());
    assert(field_rename(f.attrs@.drop_first()) is None);
    assert(field_rename(f.attrs@) is None);
}

/// Of several rename annotations on one field, only the first with the
/// recognized shape is honored: whatever follows it is ignored.
pub proof fn lemma_first_rename_wins(f: FieldDecl, m1: AttrMeta, m2: AttrMeta, s1: Seq<char>)
    requires
        f.attrs@ == seq![m1, m2],
        attr_rename_arg(m1) == Some(s1),
    ensures
        derived_field_name(f) == s1,
{
}

} // verus!

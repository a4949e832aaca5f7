//! The derive of `Subtheme`: a proxy struct that a theme file is read into,
//! and the conversion from the proxy to the struct itself.
//!
//! In the proxy a field with `#[theme(style)]` is a pair of colour names; in
//! the struct it starts as the default style, and whoever reads the theme
//! puts the colours in. Any other field is carried over as it is.
//!
//! [`expand_subtheme`] writes the code for an item that has no fault;
//! [`fault`] says whether an item has one, and which.

use crate::error::{fault_of, DeriveError};
use crate::helpers::{
    find_theme_metadata, get_type_token_stream, theme_metadata, type_path_text, Metadata,
    MetadataView,
};
use crate::syntax::{Data, DeriveInput, Field, Fields};
use crate::words::{unraw, unraw_name};
use vstd::prelude::*;
use vstd::string::*;

verus! {

/// The name of the proxy of the struct `name`.
pub open spec fn proxy_name(name: Seq<char>) -> Seq<char> {
    unraw(name) + "Proxy"@
}

/// The declaration of a field in the proxy and its initialisation in the
/// conversion.
pub ghost struct ProxyField {
    pub declaration: Seq<char>,
    pub assignment: Seq<char>,
}

/// The two pieces of code for one field. A style is declared as a pair of
/// colour names and starts as the default style. A field without metadata
/// keeps its type, if that is written as a path, and its value. `styles`
/// metadata is an error.
pub open spec fn proxy_field(field: Field, index: usize) -> Result<ProxyField, DeriveError> {
    match theme_metadata(field.attrs@) {
        Err(e) => Err(DeriveError::Metadata(index, e)),
        Ok(Some(MetadataView::Style)) => Ok(
            ProxyField {
                declaration: field.ident@ + ": ratatheme::Style"@,
                assignment: field.ident@ + ": ratatui::style::Style::default()"@,
            },
        ),
        Ok(Some(MetadataView::Styles(_))) => Err(DeriveError::UnsupportedMetadata(index)),
        Ok(None) => Ok(
            ProxyField {
                declaration: field.ident@ + ": "@ + (match type_path_text(field.ty) {
                    Some(text) => text,
                    None => Seq::empty(),
                }),
                assignment: field.ident@ + ": value."@ + field.ident@,
            },
        ),
    }
}

/// The pieces of code for the first `count` fields, those of a kind
/// separated by commas, or the error of the first field that has one.
pub open spec fn proxy_fields(fields: Seq<Field>, count: int) -> Result<ProxyField, DeriveError>
    decreases count,
{
    if count <= 0 {
        Ok(ProxyField { declaration: Seq::empty(), assignment: Seq::empty() })
    } else {
        match proxy_fields(fields, count - 1) {
            Err(e) => Err(e),
            Ok(before) => match proxy_field(fields[count - 1], (count - 1) as usize) {
                Err(e) => Err(e),
                Ok(field) => Ok(
                    if count == 1 {
                        field
                    } else {
                        ProxyField {
                            declaration: before.declaration + ", "@ + field.declaration,
                            assignment: before.assignment + ", "@ + field.assignment,
                        }
                    },
                ),
            },
        }
    }
}

/// The proxy of the struct `name` and the conversion from it.
pub open spec fn subtheme_code(name: Seq<char>, fields: ProxyField) -> Seq<char> {
    "#[derive(Debug, ::serde::Deserialize)] struct "@ + proxy_name(name) + " { "@
        + fields.declaration + " } impl From<"@ + proxy_name(name) + "> for "@ + name
        + " { fn from(value: "@ + proxy_name(name) + ") -> Self { Self { "@ + fields.assignment
        + " } } }"@
}

/// What the derive makes of `input`: the proxy and the conversion for a
/// struct with named fields, no code for a struct without them, and a fault
/// for anything else and for a field that has one.
pub open spec fn subtheme_expansion(input: DeriveInput) -> Result<Seq<char>, DeriveError> {
    match input.data {
        Data::Struct(Fields::Named(fields)) => match proxy_fields(fields@, fields@.len() as int) {
            Ok(code) => Ok(subtheme_code(input.ident@, code)),
            Err(e) => Err(e),
        },
        Data::Struct(_) => Ok(Seq::empty()),
        _ => Err(DeriveError::NotAStruct),
    }
}

/// An error among the first fields is the error of the whole.
pub proof fn lemma_first_error_stays(fields: Seq<Field>, count: int, more: int)
    requires
        count <= more,
        proxy_fields(fields, count) is Err,
    ensures
        proxy_fields(fields, more) == proxy_fields(fields, count),
    decreases more - count,
{
    if count < more {
        lemma_first_error_stays(fields, count, more - 1);
    }
}

/// An error of the first `count` fields is about one of them.
pub proof fn lemma_error_is_about_a_field(fields: Seq<Field>, count: int)
    requires
        0 <= count <= usize::MAX,
    ensures
        proxy_fields(fields, count) matches Err(e) ==> e.field_index() matches Some(i) && i < count,
    decreases count,
{
    if count > 0 {
        lemma_error_is_about_a_field(fields, count - 1);
    }
}

/// An error of the derive that is about a field gives the position of one of
/// the item's named fields.
pub proof fn lemma_error_position(input: DeriveInput)
    ensures
        subtheme_expansion(input) matches Err(e) ==> (e.field_index() matches Some(i) ==> input.data
            matches Data::Struct(Fields::Named(fields)) && i < fields@.len()),
{
    if let Data::Struct(Fields::Named(fields)) = input.data {
        assert(fields@.len() == fields.len());
        lemma_error_is_about_a_field(fields@, fields@.len() as int);
    }
}

/// The name of the proxy of the struct `struct_name`.
pub fn subtheme_proxy_name(struct_name: &str) -> (name: String)
    ensures
        name@ == proxy_name(struct_name@),
{
    let mut name = String::from_str(unraw_name(struct_name));
    name.append("Proxy");
    name
}

/// The declaration of a field in the proxy and its initialisation in the
/// conversion, as text.
pub struct ProxyFieldCode {
    pub declaration: String,
    pub assignment: String,
}

impl View for ProxyFieldCode {
    type V = ProxyField;

    open spec fn view(&self) -> ProxyField {
        ProxyField { declaration: self.declaration@, assignment: self.assignment@ }
    }
}

fn proxy_field_code(field: &Field, index: usize) -> (r: Result<ProxyFieldCode, DeriveError>)
    ensures
        match r {
            Ok(code) => proxy_field(*field, index) == Ok::<ProxyField, DeriveError>(code@),
            Err(e) => proxy_field(*field, index) == Err::<ProxyField, DeriveError>(e),
        },
{
    let meta = match find_theme_metadata(&field.attrs) {
        Ok(meta) => meta,
        Err(e) => {
            return Err(DeriveError::Metadata(index, e));
        },
    };
    let name = field.ident.as_str();
    match meta {
        Some(Metadata::Style) => {
            let mut declaration = String::from_str(name);
            declaration.append(": ratatheme::Style");
            let mut assignment = String::from_str(name);
            assignment.append(": ratatui::style::Style::default()");
            Ok(ProxyFieldCode { declaration, assignment })
        },
        Some(Metadata::Styles(_)) => Err(DeriveError::UnsupportedMetadata(index)),
        None => {
            let mut declaration = String::from_str(name);
            declaration.append(": ");
            match get_type_token_stream(&field.ty) {
                Some(text) => {
                    declaration.append(text.as_str());
                },
                None => {
                    assert(declaration@ + Seq::<char>::empty() =~= declaration@);
                },
            }
            let mut assignment = String::from_str(name);
            assignment.append(": value.");
            assignment.append(name);
            Ok(ProxyFieldCode { declaration, assignment })
        },
    }
}

fn proxy_fields_code(fields: &Vec<Field>) -> (r: Result<ProxyFieldCode, DeriveError>)
    ensures
        match r {
            Ok(code) => proxy_fields(fields@, fields@.len() as int) == Ok::<
                ProxyField,
                DeriveError,
            >(code@),
            Err(e) => proxy_fields(fields@, fields@.len() as int) == Err::<
                ProxyField,
                DeriveError,
            >(e),
        },
{
    let mut all = ProxyFieldCode { declaration: String::new(), assignment: String::new() };
    let mut i: usize = 0;
    while i < fields.len()
        invariant
            i <= fields.len(),
            proxy_fields(fields@, i as int) == Ok::<ProxyField, DeriveError>(all@),
        decreases fields.len() - i,
    {
        match proxy_field_code(&fields[i], i) {
            Ok(code) => {
                if i > 0 {
                    all.declaration.append(", ");
                    all.declaration.append(code.declaration.as_str());
                    all.assignment.append(", ");
                    all.assignment.append(code.assignment.as_str());
                } else {
                    all = code;
                }
            },
            Err(e) => {
                proof {
                    assert(proxy_fields(fields@, i + 1) is Err);
                    lemma_first_error_stays(fields@, i + 1, fields@.len() as int);
                }
                return Err(e);
            },
        }
        i = i + 1;
    }
    Ok(all)
}

/// The proxy of `input` and the conversion from it as Rust code, or the
/// first fault of the item.
fn expand(input: &DeriveInput) -> (r: Result<String, DeriveError>)
    ensures
        match r {
            Ok(code) => subtheme_expansion(*input) == Ok::<Seq<char>, DeriveError>(code@),
            Err(e) => subtheme_expansion(*input) == Err::<Seq<char>, DeriveError>(e),
        },
{
    let data = match &input.data {
        Data::Struct(data) => data,
        _ => {
            return Err(DeriveError::NotAStruct);
        },
    };
    let fields = match data {
        Fields::Named(fields) => fields,
        _ => {
            return Ok(String::new());
        },
    };
    let proxy = subtheme_proxy_name(input.ident.as_str());
    let code = match proxy_fields_code(fields) {
        Ok(code) => code,
        Err(e) => {
            return Err(e);
        },
    };
    let mut out = String::from_str("#[derive(Debug, ::serde::Deserialize)] struct ");
    out.append(proxy.as_str());
    out.append(" { ");
    out.append(code.declaration.as_str());
    out.append(" } impl From<");
    out.append(proxy.as_str());
    out.append("> for ");
    out.append(input.ident.as_str());
    out.append(" { fn from(value: ");
    out.append(proxy.as_str());
    out.append(") -> Self { Self { ");
    out.append(code.assignment.as_str());
    out.append(" } } }");
    Ok(out)
}

/// The fault for which the derive gives no code for `input`: the item is no
/// struct, or one of its fields has a `theme` attribute that cannot be read
/// or that asks for a struct of styles. `None` for an item without fault.
pub fn fault(input: &DeriveInput) -> (fault: Option<DeriveError>)
    ensures
        fault == fault_of(subtheme_expansion(*input)),
{
    match expand(input) {
        Ok(_) => None,
        Err(e) => Some(e),
    }
}

/// The derive of `Subtheme`: the proxy of `input` and the conversion from it
/// as Rust code. The item has to be without fault, which [`fault`] tells.
pub fn expand_subtheme(input: &DeriveInput) -> (code: String)
    requires
        subtheme_expansion(*input) is Ok,
    ensures
        subtheme_expansion(*input) == Ok::<Seq<char>, DeriveError>(code@),
{
    match expand(input) {
        Ok(code) => code,
        Err(_) => unreached(),
    }
}

} // verus!

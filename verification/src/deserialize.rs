//! The derive of `DeserializeTheme`: code that reads a theme from a map with
//! a table of colours.
//!
//! The generated visitor keeps one variable per field while it walks the map,
//! then resolves each style's colour names against the table `colors`. A
//! field with `#[theme(style)]` is read as a map of names, a field with
//! `#[theme(styles(a, b))]` through the proxy of its type, and any other
//! field as it is.
//!
//! [`impl_deserialize_theme`] writes the code for an item that has no fault;
//! [`fault`] says whether an item has one, and which.

use crate::error::{fault_of, DeriveError};
use crate::helpers::{
    find_theme_metadata, get_type_identifier, get_type_token_stream, is_option_type, option_type,
    texts, theme_metadata, type_ident, type_path_text, Metadata, MetadataView,
};
use crate::subtheme::{proxy_name, subtheme_proxy_name};
use crate::syntax::{Data, DeriveInput, Field, Fields};
use crate::words::{unraw, unraw_name};
use vstd::prelude::*;
use vstd::string::*;

verus! {

/// The start of the implementation, up to the struct's name.
pub const IMPL_HEAD: &'static str = "impl<'de> ratatheme::DeserializeTheme<'de> for ";

/// From the struct's name to the visitor's value type.
pub const VISITOR_HEAD: &'static str =
    " { fn deserialize_theme<D>(deserializer: D) -> Result<Self, D::Error> where D: serde::de::Deserializer<'de>, { struct ThemeVisitor; impl<'de> serde::de::Visitor<'de> for ThemeVisitor { type Value = ";

/// From the visitor's value type to the variables of the fields.
pub const VISIT_MAP_HEAD: &'static str =
    "; fn expecting(&self, formatter: &mut std::fmt::Formatter) -> std::fmt::Result { formatter.write_str(\"a theme with 'colors' and 'base' sections\") } fn visit_map<M>(self, mut access: M) -> Result<Self::Value, M::Error> where M: serde::de::MapAccess<'de>, { let mut color_map: Option<std::collections::HashMap<String, String>> = None; ";

/// The loop over the map's keys, up to the arms of the fields.
pub const KEY_LOOP_HEAD: &'static str =
    "while let Some(key) = access.next_key::<String>()? { match String::as_str(&key) { \"colors\" => { if color_map.is_some() { return Err(serde::de::Error::duplicate_field(\"colors\")); } color_map = Some(access.next_value()?); } ";

/// The end of the loop over the map's keys.
pub const KEY_LOOP_TAIL: &'static str =
    "_ => { let _ignored: serde::de::IgnoredAny = access.next_value()?; } } } let color_map = color_map.unwrap_or_default(); ";

/// From the theme's fields to the helper functions.
pub const VISITOR_TAIL: &'static str =
    " }) } } deserializer.deserialize_map(ThemeVisitor) } } impl ";

/// The functions that resolve a colour's name: a key of the colour table
/// stands for its value, and what is no key is taken as a colour itself.
pub const HELPERS: &'static str =
    " { fn __resolve_fg_color( style_map: &std::collections::HashMap<String, String>, color_map: &std::collections::HashMap<String, String>, ) -> Option<ratatui::style::Color> { let color_str = style_map.get(\"fg\").or_else(|| style_map.get(\"foreground\"))?; Self::__resolve_color_str(color_str, color_map) } fn __resolve_bg_color( style_map: &std::collections::HashMap<String, String>, color_map: &std::collections::HashMap<String, String>, ) -> Option<ratatui::style::Color> { let color_name = style_map.get(\"bg\").or_else(|| style_map.get(\"background\"))?; Self::__resolve_color_str(color_name, color_map) } fn __resolve_color_str(color_str: &str, color_map: &std::collections::HashMap<String, String>) -> Option<ratatui::style::Color> { use std::str::FromStr; if let Some(color) = color_map .get(color_str) .and_then(|color_value| ratatui::style::Color::from_str(color_value).ok()) { return Some(color); } ratatui::style::Color::from_str(color_str).ok() } }";

/// The code for one field: the variable's definition, the arm of the match
/// on the map's keys, and what makes the field's value of the variable.
pub ghost struct FieldParts {
    pub definition: Seq<char>,
    pub arm: Seq<char>,
    pub finish: Seq<char>,
}

/// The code for the fields: the three parts of [`FieldParts`], each for all
/// fields in order, and the fields' names separated by commas.
pub ghost struct ThemeParts {
    pub definitions: Seq<char>,
    pub arms: Seq<char>,
    pub finishes: Seq<char>,
    pub names: Seq<char>,
}

/// The arm for the key `field`, which fills the variable `var` and refuses a
/// second value.
pub open spec fn key_arm(field: Seq<char>, var: Seq<char>) -> Seq<char> {
    "\""@ + field + "\" => { if "@ + var
        + ".is_some() { return Err(serde::de::Error::duplicate_field(\""@ + field + "\")); } "@
        + var + " = Some(access.next_value()?); } "@
}

/// The variable of a style: the field's name and `_map`.
pub open spec fn map_var(field: Seq<char>) -> Seq<char> {
    unraw(field) + "_map"@
}

/// The variable of a struct of styles: the field's name and `_proxy`.
pub open spec fn proxy_var(field: Seq<char>) -> Seq<char> {
    unraw(field) + "_proxy"@
}

/// The parts for a style in the struct `owner`.
pub open spec fn style_parts(owner: Seq<char>, field: Seq<char>) -> FieldParts {
    let var = map_var(field);
    FieldParts {
        definition: "let mut "@ + var
            + ": Option<std::collections::HashMap<String, String>> = None; "@,
        arm: key_arm(field, var),
        finish: "let mut "@ + field + " = ratatui::style::Style::default(); if let Some("@ + var
            + ") = "@ + var + " { if let Some(fg) = "@ + owner + "::__resolve_fg_color(&"@ + var
            + ", &color_map) { "@ + field + " = "@ + field
            + ".fg(fg); } if let Some(bg) = "@ + owner + "::__resolve_bg_color(&"@ + var
            + ", &color_map) { "@ + field + " = "@ + field + ".bg(bg); } } "@,
    }
}

/// The code that takes the two colour names of the style `name` out of the
/// proxy.
pub open spec fn style_bind(name: Seq<char>) -> Seq<char> {
    "let fg_"@ + unraw(name) + " = proxy."@ + name + ".fg.take(); let bg_"@ + unraw(name)
        + " = proxy."@ + name + ".bg.take(); "@
}

/// The code that resolves the two colour names of the style `name` and puts
/// the colours into the struct.
pub open spec fn style_assign(owner: Seq<char>, name: Seq<char>) -> Seq<char> {
    "if let Some(color_str) = fg_"@ + unraw(name) + " { if let Some(color) = "@ + owner
        + "::__resolve_color_str(&color_str, &color_map) { original."@ + name + " = original."@
        + name + ".fg(color); } } if let Some(color_str) = bg_"@ + unraw(name)
        + " { if let Some(color) = "@ + owner
        + "::__resolve_color_str(&color_str, &color_map) { original."@ + name + " = original."@
        + name + ".bg(color); } } "@
}

/// [`style_bind`] for the first `count` names.
pub open spec fn style_binds(names: Seq<Seq<char>>, count: int) -> Seq<char>
    decreases count,
{
    if count <= 0 {
        Seq::empty()
    } else {
        style_binds(names, count - 1) + style_bind(names[count - 1])
    }
}

/// [`style_assign`] for the first `count` names.
pub open spec fn style_assigns(owner: Seq<char>, names: Seq<Seq<char>>, count: int) -> Seq<char>
    decreases count,
{
    if count <= 0 {
        Seq::empty()
    } else {
        style_assigns(owner, names, count - 1) + style_assign(owner, names[count - 1])
    }
}

/// The parts for a struct of styles with the names `names`, whose type is
/// called `ty` and written `ty_text`.
pub open spec fn styles_parts(
    owner: Seq<char>,
    field: Seq<char>,
    ty: Seq<char>,
    ty_text: Seq<char>,
    names: Seq<Seq<char>>,
) -> FieldParts {
    let var = proxy_var(field);
    FieldParts {
        definition: "let mut "@ + var + ": Option< "@ + proxy_name(ty) + " > = None; "@,
        arm: key_arm(field, var),
        finish: "let "@ + field + " = "@ + var
            + ".take().map_or_else(|| unsafe { std::mem::zeroed() }, |mut proxy| { "@
            + style_binds(names, names.len() as int) + "let mut original: "@ + ty_text
            + " = proxy.into(); "@ + style_assigns(owner, names, names.len() as int)
            + "original }, ); "@,
    }
}

/// The parts for a field without metadata, whose type is written `ty_text`.
/// An `Option` may be missing in the map, any other field has to be there.
pub open spec fn plain_parts(field: Seq<char>, ty_text: Seq<char>, option: bool) -> FieldParts {
    if option {
        FieldParts {
            definition: "let mut "@ + field + ": "@ + ty_text + " = None; "@,
            arm: key_arm(field, field),
            finish: Seq::empty(),
        }
    } else {
        FieldParts {
            definition: "let mut "@ + field + ": Option< "@ + ty_text + " > = None; "@,
            arm: key_arm(field, field),
            finish: "let "@ + field + " = "@ + field + ".unwrap(); "@,
        }
    }
}

/// The parts for the field at position `index` of the struct `owner`. The
/// field's metadata has to be readable and its type a path; the type of a
/// struct of styles has to be a single name.
pub open spec fn field_parts(owner: Seq<char>, field: Field, index: usize) -> Result<
    FieldParts,
    DeriveError,
> {
    match theme_metadata(field.attrs@) {
        Err(e) => Err(DeriveError::Metadata(index, e)),
        Ok(meta) => match type_path_text(field.ty) {
            None => Err(DeriveError::TypeNotPath(index)),
            Some(ty_text) => match meta {
                Some(MetadataView::Style) => Ok(style_parts(owner, field.ident@)),
                Some(MetadataView::Styles(names)) => match type_ident(field.ty) {
                    None => Err(DeriveError::TypeNotIdent(index)),
                    Some(ty) => Ok(styles_parts(owner, field.ident@, ty, ty_text, names)),
                },
                None => Ok(plain_parts(field.ident@, ty_text, option_type(field.ty))),
            },
        },
    }
}

/// The parts for the first `count` fields, or the error of the first field
/// that has one.
pub open spec fn theme_parts(owner: Seq<char>, fields: Seq<Field>, count: int) -> Result<
    ThemeParts,
    DeriveError,
>
    decreases count,
{
    if count <= 0 {
        Ok(
            ThemeParts {
                definitions: Seq::empty(),
                arms: Seq::empty(),
                finishes: Seq::empty(),
                names: Seq::empty(),
            },
        )
    } else {
        match theme_parts(owner, fields, count - 1) {
            Err(e) => Err(e),
            Ok(before) => match field_parts(owner, fields[count - 1], (count - 1) as usize) {
                Err(e) => Err(e),
                Ok(field) => Ok(
                    ThemeParts {
                        definitions: before.definitions + field.definition,
                        arms: before.arms + field.arm,
                        finishes: before.finishes + field.finish,
                        names: if count == 1 {
                            fields[count - 1].ident@
                        } else {
                            before.names + ", "@ + fields[count - 1].ident@
                        },
                    },
                ),
            },
        }
    }
}

/// The implementation of `DeserializeTheme` for the struct `owner`, and the
/// functions that resolve colour names.
pub open spec fn deserialize_code(owner: Seq<char>, parts: ThemeParts) -> Seq<char> {
    IMPL_HEAD@ + owner + VISITOR_HEAD@ + owner + VISIT_MAP_HEAD@ + parts.definitions
        + KEY_LOOP_HEAD@ + parts.arms + KEY_LOOP_TAIL@ + parts.finishes + "Ok("@ + owner + " { "@
        + parts.names + VISITOR_TAIL@ + owner + HELPERS@
}

/// What the derive makes of `input`: the implementation for a struct with
/// named fields, no code for a struct without any, and a fault for anything
/// else and for a field that has one.
pub open spec fn deserialize_expansion(input: DeriveInput) -> Result<Seq<char>, DeriveError> {
    match input.data {
        Data::Struct(Fields::Named(fields)) => if fields@.len() == 0 {
            Ok(Seq::empty())
        } else {
            match theme_parts(input.ident@, fields@, fields@.len() as int) {
                Ok(parts) => Ok(deserialize_code(input.ident@, parts)),
                Err(e) => Err(e),
            }
        },
        Data::Struct(_) => Ok(Seq::empty()),
        _ => Err(DeriveError::NotAStruct),
    }
}

/// An error among the first fields is the error of the whole.
pub proof fn lemma_first_error_stays(owner: Seq<char>, fields: Seq<Field>, count: int, more: int)
    requires
        count <= more,
        theme_parts(owner, fields, count) is Err,
    ensures
        theme_parts(owner, fields, more) == theme_parts(owner, fields, count),
    decreases more - count,
{
    if count < more {
        lemma_first_error_stays(owner, fields, count, more - 1);
    }
}

/// An error of the first `count` fields is about one of them.
pub proof fn lemma_error_is_about_a_field(owner: Seq<char>, fields: Seq<Field>, count: int)
    requires
        0 <= count <= usize::MAX,
    ensures
        theme_parts(owner, fields, count) matches Err(e) ==> e.field_index() matches Some(i) && i < count,
    decreases count,
{
    if count > 0 {
        lemma_error_is_about_a_field(owner, fields, count - 1);
    }
}

/// An error of the derive that is about a field gives the position of one of
/// the item's named fields.
pub proof fn lemma_error_position(input: DeriveInput)
    ensures
        deserialize_expansion(input) matches Err(e) ==> (e.field_index() matches Some(i) ==> input.data
            matches Data::Struct(Fields::Named(fields)) && i < fields@.len()),
{
    if let Data::Struct(Fields::Named(fields)) = input.data {
        assert(fields@.len() == fields.len());
        lemma_error_is_about_a_field(input.ident@, fields@, fields@.len() as int);
    }
}

/// The code for one field, as text.
pub struct FieldCode {
    pub definition: String,
    pub arm: String,
    pub finish: String,
}

impl View for FieldCode {
    type V = FieldParts;

    open spec fn view(&self) -> FieldParts {
        FieldParts { definition: self.definition@, arm: self.arm@, finish: self.finish@ }
    }
}

/// The code for the fields, as text.
pub struct ThemeCode {
    pub definitions: String,
    pub arms: String,
    pub finishes: String,
    pub names: String,
}

impl View for ThemeCode {
    type V = ThemeParts;

    open spec fn view(&self) -> ThemeParts {
        ThemeParts {
            definitions: self.definitions@,
            arms: self.arms@,
            finishes: self.finishes@,
            names: self.names@,
        }
    }
}

fn key_arm_code(field: &str, var: &str) -> (code: String)
    ensures
        code@ == key_arm(field@, var@),
{
    let mut code = String::from_str("\"");
    code.append(field);
    code.append("\" => { if ");
    code.append(var);
    code.append(".is_some() { return Err(serde::de::Error::duplicate_field(\"");
    code.append(field);
    code.append("\")); } ");
    code.append(var);
    code.append(" = Some(access.next_value()?); } ");
    code
}

fn style_code(owner: &str, field: &str) -> (code: FieldCode)
    ensures
        code@ == style_parts(owner@, field@),
{
    let mut var = String::from_str(unraw_name(field));
    var.append("_map");
    let var = var.as_str();
    let mut definition = String::from_str("let mut ");
    definition.append(var);
    definition.append(": Option<std::collections::HashMap<String, String>> = None; ");
    let mut finish = String::from_str("let mut ");
    finish.append(field);
    finish.append(" = ratatui::style::Style::default(); if let Some(");
    finish.append(var);
    finish.append(") = ");
    finish.append(var);
    finish.append(" { if let Some(fg) = ");
    finish.append(owner);
    finish.append("::__resolve_fg_color(&");
    finish.append(var);
    finish.append(", &color_map) { ");
    finish.append(field);
    finish.append(" = ");
    finish.append(field);
    finish.append(".fg(fg); } if let Some(bg) = ");
    finish.append(owner);
    finish.append("::__resolve_bg_color(&");
    finish.append(var);
    finish.append(", &color_map) { ");
    finish.append(field);
    finish.append(" = ");
    finish.append(field);
    finish.append(".bg(bg); } } ");
    FieldCode { definition, arm: key_arm_code(field, var), finish }
}

fn style_bind_code(name: &str) -> (code: String)
    ensures
        code@ == style_bind(name@),
{
    let short = unraw_name(name);
    let mut code = String::from_str("let fg_");
    code.append(short);
    code.append(" = proxy.");
    code.append(name);
    code.append(".fg.take(); let bg_");
    code.append(short);
    code.append(" = proxy.");
    code.append(name);
    code.append(".bg.take(); ");
    code
}

fn style_assign_code(owner: &str, name: &str) -> (code: String)
    ensures
        code@ == style_assign(owner@, name@),
{
    let short = unraw_name(name);
    let mut code = String::from_str("if let Some(color_str) = fg_");
    code.append(short);
    code.append(" { if let Some(color) = ");
    code.append(owner);
    code.append("::__resolve_color_str(&color_str, &color_map) { original.");
    code.append(name);
    code.append(" = original.");
    code.append(name);
    code.append(".fg(color); } } if let Some(color_str) = bg_");
    code.append(short);
    code.append(" { if let Some(color) = ");
    code.append(owner);
    code.append("::__resolve_color_str(&color_str, &color_map) { original.");
    code.append(name);
    code.append(" = original.");
    code.append(name);
    code.append(".bg(color); } } ");
    code
}

fn style_binds_code(names: &Vec<String>) -> (code: String)
    ensures
        code@ == style_binds(texts(names@), names@.len() as int),
{
    let mut code = String::new();
    let mut i: usize = 0;
    while i < names.len()
        invariant
            i <= names.len(),
            code@ == style_binds(texts(names@), i as int),
        decreases names.len() - i,
    {
        code.append(style_bind_code(names[i].as_str()).as_str());
        i = i + 1;
    }
    code
}

fn style_assigns_code(owner: &str, names: &Vec<String>) -> (code: String)
    ensures
        code@ == style_assigns(owner@, texts(names@), names@.len() as int),
{
    let mut code = String::new();
    let mut i: usize = 0;
    while i < names.len()
        invariant
            i <= names.len(),
            code@ == style_assigns(owner@, texts(names@), i as int),
        decreases names.len() - i,
    {
        code.append(style_assign_code(owner, names[i].as_str()).as_str());
        i = i + 1;
    }
    code
}

fn styles_code(owner: &str, field: &str, ty: &str, ty_text: &str, names: &Vec<String>) -> (code:
    FieldCode)
    ensures
        code@ == styles_parts(owner@, field@, ty@, ty_text@, texts(names@)),
{
    let mut var = String::from_str(unraw_name(field));
    var.append("_proxy");
    let var = var.as_str();
    let mut definition = String::from_str("let mut ");
    definition.append(var);
    definition.append(": Option< ");
    definition.append(subtheme_proxy_name(ty).as_str());
    definition.append(" > = None; ");
    let mut finish = String::from_str("let ");
    finish.append(field);
    finish.append(" = ");
    finish.append(var);
    finish.append(".take().map_or_else(|| unsafe { std::mem::zeroed() }, |mut proxy| { ");
    finish.append(style_binds_code(names).as_str());
    finish.append("let mut original: ");
    finish.append(ty_text);
    finish.append(" = proxy.into(); ");
    finish.append(style_assigns_code(owner, names).as_str());
    finish.append("original }, ); ");
    FieldCode { definition, arm: key_arm_code(field, var), finish }
}

fn plain_code(field: &str, ty_text: &str, option: bool) -> (code: FieldCode)
    ensures
        code@ == plain_parts(field@, ty_text@, option),
{
    let mut definition = String::from_str("let mut ");
    definition.append(field);
    if option {
        definition.append(": ");
        definition.append(ty_text);
        definition.append(" = None; ");
        FieldCode { definition, arm: key_arm_code(field, field), finish: String::new() }
    } else {
        definition.append(": Option< ");
        definition.append(ty_text);
        definition.append(" > = None; ");
        let mut finish = String::from_str("let ");
        finish.append(field);
        finish.append(" = ");
        finish.append(field);
        finish.append(".unwrap(); ");
        FieldCode { definition, arm: key_arm_code(field, field), finish }
    }
}

fn field_code(owner: &str, field: &Field, index: usize) -> (r: Result<FieldCode, DeriveError>)
    ensures
        match r {
            Ok(code) => field_parts(owner@, *field, index) == Ok::<FieldParts, DeriveError>(code@),
            Err(e) => field_parts(owner@, *field, index) == Err::<FieldParts, DeriveError>(e),
        },
{
    let meta = match find_theme_metadata(&field.attrs) {
        Ok(meta) => meta,
        Err(e) => {
            return Err(DeriveError::Metadata(index, e));
        },
    };
    let ty_text = match get_type_token_stream(&field.ty) {
        Some(text) => text,
        None => {
            return Err(DeriveError::TypeNotPath(index));
        },
    };
    let name = field.ident.as_str();
    match meta {
        Some(Metadata::Style) => Ok(style_code(owner, name)),
        Some(Metadata::Styles(names)) => match get_type_identifier(&field.ty) {
            Some(ty) => Ok(styles_code(owner, name, ty.as_str(), ty_text.as_str(), &names)),
            None => Err(DeriveError::TypeNotIdent(index)),
        },
        None => Ok(plain_code(name, ty_text.as_str(), is_option_type(&field.ty))),
    }
}

fn theme_code(owner: &str, fields: &Vec<Field>) -> (r: Result<ThemeCode, DeriveError>)
    ensures
        match r {
            Ok(code) => theme_parts(owner@, fields@, fields@.len() as int) == Ok::<
                ThemeParts,
                DeriveError,
            >(code@),
            Err(e) => theme_parts(owner@, fields@, fields@.len() as int) == Err::<
                ThemeParts,
                DeriveError,
            >(e),
        },
{
    let mut all = ThemeCode {
        definitions: String::new(),
        arms: String::new(),
        finishes: String::new(),
        names: String::new(),
    };
    let mut i: usize = 0;
    while i < fields.len()
        invariant
            i <= fields.len(),
            theme_parts(owner@, fields@, i as int) == Ok::<ThemeParts, DeriveError>(all@),
        decreases fields.len() - i,
    {
        let field = &fields[i];
        match field_code(owner, field, i) {
            Ok(code) => {
                all.definitions.append(code.definition.as_str());
                all.arms.append(code.arm.as_str());
                all.finishes.append(code.finish.as_str());
                if i > 0 {
                    all.names.append(", ");
                    all.names.append(field.ident.as_str());
                } else {
                    all.names = field.ident.clone();
                }
            },
            Err(e) => {
                proof {
                    assert(theme_parts(owner@, fields@, i + 1) is Err);
                    lemma_first_error_stays(owner@, fields@, i + 1, fields@.len() as int);
                }
                return Err(e);
            },
        }
        i = i + 1;
    }
    Ok(all)
}

/// The implementation of `DeserializeTheme` for `input` as Rust code, or the
/// first fault of the item.
fn expand(input: &DeriveInput) -> (r: Result<String, DeriveError>)
    ensures
        match r {
            Ok(code) => deserialize_expansion(*input) == Ok::<Seq<char>, DeriveError>(code@),
            Err(e) => deserialize_expansion(*input) == Err::<Seq<char>, DeriveError>(e),
        },
{
    let data = match &input.data {
        Data::Struct(data) => data,
        _ => {
            return Err(DeriveError::NotAStruct);
        },
    };
    let fields = match data {
        Fields::Named(fields) => fields,
        _ => {
            return Ok(String::new());
        },
    };
    if fields.len() == 0 {
        return Ok(String::new());
    }
    let owner = input.ident.as_str();
    let parts = match theme_code(owner, fields) {
        Ok(parts) => parts,
        Err(e) => {
            return Err(e);
        },
    };
    let mut out = String::from_str(IMPL_HEAD);
    out.append(owner);
    out.append(VISITOR_HEAD);
    out.append(owner);
    out.append(VISIT_MAP_HEAD);
    out.append(parts.definitions.as_str());
    out.append(KEY_LOOP_HEAD);
    out.append(parts.arms.as_str());
    out.append(KEY_LOOP_TAIL);
    out.append(parts.finishes.as_str());
    out.append("Ok(");
    out.append(owner);
    out.append(" { ");
    out.append(parts.names.as_str());
    out.append(VISITOR_TAIL);
    out.append(owner);
    out.append(HELPERS);
    Ok(out)
}

/// The fault for which the derive gives no code for `input`: the item is no
/// struct, or one of its fields has a `theme` attribute that cannot be read
/// or a type that cannot be read as the attribute asks. `None` for an item
/// without fault.
pub fn fault(input: &DeriveInput) -> (fault: Option<DeriveError>)
    ensures
        fault == fault_of(deserialize_expansion(*input)),
{
    match expand(input) {
        Ok(_) => None,
        Err(e) => Some(e),
    }
}

/// The derive of `DeserializeTheme`: the implementation for `input` as Rust
/// code. The item has to be without fault, which [`fault`] tells.
pub fn impl_deserialize_theme(input: &DeriveInput) -> (code: String)
    requires
        deserialize_expansion(*input) is Ok,
    ensures
        deserialize_expansion(*input) == Ok::<Seq<char>, DeriveError>(code@),
{
    match expand(input) {
        Ok(code) => code,
        Err(_) => unreached(),
    }
}

} // verus!

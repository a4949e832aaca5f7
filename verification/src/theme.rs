//! The derive of `Theme`: one method per style, which resolves the style's
//! colour names into a style of the terminal library.
//!
//! A field with `#[theme(style)]` gets a method of its own name, a field
//! with `#[theme(styles(a, b))]` one method per name, called after the
//! field and the name. A field with `#[theme(colors)]` is the table in which
//! colour names are looked up first.
//!
//! [`theme_macro`] writes the code for an item that has no fault; [`fault`]
//! says whether an item has one, and which.

use crate::error::{fault_of, DeriveError, MetadataError};
use crate::helpers::{
    collect_ident_names, get_type_identifier, ident_names, texts, type_ident,
};
use crate::syntax::{
    attribute_named, find_attribute_named, Attribute, Data, DeriveInput, Field, Fields, Meta, Token,
};
use crate::words::{has_raw_mark, is_raw, same_text};
use vstd::prelude::*;
use vstd::string::*;

verus! {

/// The metadata of a `theme` attribute.
#[derive(Debug, PartialEq, Eq)]
pub enum Metadata {
    /// `theme(style)`: the field is one style.
    Style,
    /// `theme(colors)`: the field is the table of colours.
    Colors,
    /// `theme(styles(a, b))`: the field is a struct of styles with these
    /// names.
    Styles(Vec<String>),
}

/// [`Metadata`] with names as sequences of characters.
pub ghost enum MetadataView {
    Style,
    Colors,
    Styles(Seq<Seq<char>>),
}

impl View for Metadata {
    type V = MetadataView;

    open spec fn view(&self) -> MetadataView {
        match self {
            Metadata::Style => MetadataView::Style,
            Metadata::Colors => MetadataView::Colors,
            Metadata::Styles(names) => MetadataView::Styles(texts(names@)),
        }
    }
}

/// The view of optional metadata.
pub open spec fn metadata_view(meta: Option<Metadata>) -> Option<MetadataView> {
    match meta {
        Some(meta) => Some(meta@),
        None => None,
    }
}

/// The function that resolves a colour's name where the theme has a table
/// of colours: a key of the table stands for its value.
pub const COLOR_FROM_TABLE: &'static str =
    "fn _color_from_str(&self, color: &str) -> ratatui::style::Color { use std::str::FromStr; let color = self.colors.get(color).unwrap_or(color); ratatui::style::Color::from_str(color).expect(\"failed to parse color from str\") }";

/// The function that resolves a colour's name where the theme has no table
/// of colours.
pub const COLOR_FROM_NAME: &'static str =
    "fn _color_from_str(&self, color: &str) -> ratatui::style::Color { ratatui::style::Color::from_str(color).expect(\"failed to parse color from str\") }";

/// The metadata that a list of tokens stands for: `style`, `colors`, or
/// `styles` and a group, of which the identifiers are the names. Nothing for
/// an empty list; `styles` without a group and any other first token are
/// errors.
pub open spec fn tokens_metadata(tokens: Seq<Token>) -> Result<Option<MetadataView>, MetadataError> {
    if tokens.len() == 0 {
        Ok(None)
    } else {
        match tokens[0] {
            Token::Ident(word) => if word@ == "style"@ {
                Ok(Some(MetadataView::Style))
            } else if word@ == "colors"@ {
                Ok(Some(MetadataView::Colors))
            } else if word@ == "styles"@ {
                if tokens.len() > 1 {
                    match tokens[1] {
                        Token::Group(_, names) => Ok(
                            Some(MetadataView::Styles(ident_names(names@, names@.len() as int))),
                        ),
                        _ => Err(MetadataError::MissingStyles),
                    }
                } else {
                    Err(MetadataError::MissingStyles)
                }
            } else {
                Err(MetadataError::UnexpectedMetadata)
            },
            _ => Err(MetadataError::UnexpectedMetadata),
        }
    }
}

/// The metadata of a `theme` attribute, which has to be a list.
pub open spec fn attribute_metadata(attr: Attribute) -> Result<Option<MetadataView>, MetadataError> {
    match attr.meta {
        Meta::List(tokens) => tokens_metadata(tokens@),
        _ => Err(MetadataError::NotAList),
    }
}

/// The method `name`, which gives the style at `path` below `self` with its
/// colours resolved.
pub open spec fn style_method(name: Seq<char>, path: Seq<char>) -> Seq<char> {
    "pub fn "@ + name
        + "(&self) -> ratatui::style::Style { let mut style = ratatui::style::Style::default(); if let Some(fg) = &self."@
        + path + ".foreground { style = style.fg(self._color_from_str(fg)); } if let Some(bg) = &self."@
        + path + ".background { style = style.bg(self._color_from_str(bg)); } style } "@
}

/// The methods for the first `count` styles of the field `field`.
pub open spec fn styles_methods(field: Seq<char>, names: Seq<Seq<char>>, count: int) -> Seq<char>
    decreases count,
{
    if count <= 0 {
        Seq::empty()
    } else {
        styles_methods(field, names, count - 1) + style_method(
            field + "_"@ + names[count - 1],
            field + "."@ + names[count - 1],
        )
    }
}

/// Whether one of the first `count` names is a raw identifier.
pub open spec fn any_raw(names: Seq<Seq<char>>, count: int) -> bool
    decreases count,
{
    if count <= 0 {
        false
    } else {
        any_raw(names, count - 1) || is_raw(names[count - 1])
    }
}

/// The methods for the field at position `index`, a struct of the styles
/// `names`. The field's type has to be a single name. With at least one
/// style neither the field's name nor a style's may be a raw identifier,
/// because a method is called after both.
pub open spec fn styles_field_methods(field: Field, names: Seq<Seq<char>>, index: usize) -> Result<
    Seq<char>,
    DeriveError,
> {
    if field.ty.path is None {
        Err(DeriveError::TypeNotPath(index))
    } else if type_ident(field.ty) is None {
        Err(DeriveError::TypeNotIdent(index))
    } else if names.len() > 0 && (is_raw(field.ident@) || any_raw(names, names.len() as int)) {
        Err(DeriveError::RawName(index))
    } else {
        Ok(styles_methods(field.ident@, names, names.len() as int))
    }
}

/// The methods of a theme and whether it has a table of colours.
pub ghost struct ThemeMethods {
    pub methods: Seq<char>,
    pub colors: bool,
}

/// What the field at position `index` adds to `before`.
pub open spec fn with_field(before: ThemeMethods, field: Field, index: usize) -> Result<
    ThemeMethods,
    DeriveError,
> {
    match attribute_named(field.attrs@, "theme"@) {
        None => Ok(before),
        Some(attr) => match attribute_metadata(attr) {
            Err(e) => Err(DeriveError::Metadata(index, e)),
            Ok(None) => Ok(before),
            Ok(Some(MetadataView::Style)) => Ok(
                ThemeMethods {
                    methods: before.methods + style_method(field.ident@, field.ident@),
                    ..before
                },
            ),
            Ok(Some(MetadataView::Colors)) => Ok(ThemeMethods { colors: true, ..before }),
            Ok(Some(MetadataView::Styles(names))) => match styles_field_methods(field, names, index) {
                Ok(methods) => Ok(ThemeMethods { methods: before.methods + methods, ..before }),
                Err(e) => Err(e),
            },
        },
    }
}

/// The methods for the first `count` fields, or the error of the first
/// field that has one.
pub open spec fn theme_methods(fields: Seq<Field>, count: int) -> Result<ThemeMethods, DeriveError>
    decreases count,
{
    if count <= 0 {
        Ok(ThemeMethods { methods: Seq::empty(), colors: false })
    } else {
        match theme_methods(fields, count - 1) {
            Err(e) => Err(e),
            Ok(before) => with_field(before, fields[count - 1], (count - 1) as usize),
        }
    }
}

/// The implementation for the struct `name`.
pub open spec fn theme_impl(name: Seq<char>, all: ThemeMethods) -> Seq<char> {
    "impl "@ + name + " { "@ + all.methods + (if all.colors {
        COLOR_FROM_TABLE@
    } else {
        COLOR_FROM_NAME@
    }) + " }"@
}

/// What the derive makes of `input`: the methods of a struct with at least
/// one named field, or the first fault of the item.
pub open spec fn theme_expansion(input: DeriveInput) -> Result<Seq<char>, DeriveError> {
    match input.data {
        Data::Struct(Fields::Named(fields)) => if fields@.len() == 0 {
            Err(DeriveError::NoFields)
        } else {
            match theme_methods(fields@, fields@.len() as int) {
                Ok(all) => Ok(theme_impl(input.ident@, all)),
                Err(e) => Err(e),
            }
        },
        Data::Struct(_) => Err(DeriveError::UnnamedFields),
        _ => Err(DeriveError::NotAStruct),
    }
}

/// An error among the first fields is the error of the whole.
pub proof fn lemma_first_error_stays(fields: Seq<Field>, count: int, more: int)
    requires
        count <= more,
        theme_methods(fields, count) is Err,
    ensures
        theme_methods(fields, more) == theme_methods(fields, count),
    decreases more - count,
{
    if count < more {
        lemma_first_error_stays(fields, count, more - 1);
    }
}

/// An error of the first `count` fields is about one of them.
pub proof fn lemma_error_is_about_a_field(fields: Seq<Field>, count: int)
    requires
        0 <= count <= usize::MAX,
    ensures
        theme_methods(fields, count) matches Err(e) ==> e.field_index() matches Some(i) && i < count,
    decreases count,
{
    if count > 0 {
        lemma_error_is_about_a_field(fields, count - 1);
    }
}

/// An error of the derive that is about a field gives the position of one of
/// the item's named fields.
pub proof fn lemma_error_position(input: DeriveInput)
    ensures
        theme_expansion(input) matches Err(e) ==> (e.field_index() matches Some(i) ==> input.data
            matches Data::Struct(Fields::Named(fields)) && i < fields@.len()),
{
    if let Data::Struct(Fields::Named(fields)) = input.data {
        assert(fields@.len() == fields.len());
        lemma_error_is_about_a_field(fields@, fields@.len() as int);
    }
}

/// Finds the `theme` attribute.
pub fn find_attribute(attrs: &Vec<Attribute>) -> (r: Option<&Attribute>)
    ensures
        match r {
            Some(attr) => attribute_named(attrs@, "theme"@) == Some(*attr),
            None => attribute_named(attrs@, "theme"@) is None,
        },
{
    find_attribute_named(attrs, "theme")
}

/// The metadata of a `theme` attribute, or its fault.
fn read_metadata(attr: &Attribute) -> (r: Result<Option<Metadata>, MetadataError>)
    ensures
        match r {
            Ok(meta) => attribute_metadata(*attr) == Ok::<Option<MetadataView>, MetadataError>(
                metadata_view(meta),
            ),
            Err(e) => attribute_metadata(*attr) == Err::<Option<MetadataView>, MetadataError>(e),
        },
{
    let tokens = match &attr.meta {
        Meta::List(tokens) => tokens,
        _ => {
            return Err(MetadataError::NotAList);
        },
    };
    if tokens.len() == 0 {
        return Ok(None);
    }
    let word = match tokens[0].as_ident() {
        Some(word) => word,
        None => {
            return Err(MetadataError::UnexpectedMetadata);
        },
    };
    if same_text(word.as_str(), "style") {
        Ok(Some(Metadata::Style))
    } else if same_text(word.as_str(), "colors") {
        Ok(Some(Metadata::Colors))
    } else if same_text(word.as_str(), "styles") {
        if tokens.len() > 1 {
            match &tokens[1] {
                Token::Group(_, names) => Ok(Some(Metadata::Styles(collect_ident_names(names)))),
                _ => Err(MetadataError::MissingStyles),
            }
        } else {
            Err(MetadataError::MissingStyles)
        }
    } else {
        Err(MetadataError::UnexpectedMetadata)
    }
}

fn style_method_code(name: &str, path: &str) -> (code: String)
    ensures
        code@ == style_method(name@, path@),
{
    let mut code = String::from_str("pub fn ");
    code.append(name);
    code.append(
        "(&self) -> ratatui::style::Style { let mut style = ratatui::style::Style::default(); if let Some(fg) = &self.",
    );
    code.append(path);
    code.append(
        ".foreground { style = style.fg(self._color_from_str(fg)); } if let Some(bg) = &self.",
    );
    code.append(path);
    code.append(".background { style = style.bg(self._color_from_str(bg)); } style } ");
    code
}

/// The method that gives the style of the field `field_name`.
pub fn generate_style_method(field_name: &str) -> (code: String)
    ensures
        code@ == style_method(field_name@, field_name@),
{
    style_method_code(field_name, field_name)
}

fn has_raw_name(names: &Vec<String>) -> (r: bool)
    ensures
        r == any_raw(texts(names@), names@.len() as int),
{
    let mut i: usize = 0;
    while i < names.len()
        invariant
            i <= names.len(),
            !any_raw(texts(names@), i as int),
        decreases names.len() - i,
    {
        if has_raw_mark(names[i].as_str()) {
            proof {
                lemma_raw_stays(texts(names@), i + 1, names@.len() as int);
            }
            return true;
        }
        i = i + 1;
    }
    false
}

/// A raw identifier among the first names is one among all.
pub proof fn lemma_raw_stays(names: Seq<Seq<char>>, count: int, more: int)
    requires
        count <= more,
        any_raw(names, count),
    ensures
        any_raw(names, more),
    decreases more - count,
{
    if count < more {
        lemma_raw_stays(names, count, more - 1);
    }
}

/// The methods that give the styles `subfields` of `field`, the field at
/// position `index`, or the fault of the field.
fn styles_methods_code(field: &Field, subfields: &Vec<String>, index: usize) -> (r: Result<
    String,
    DeriveError,
>)
    ensures
        match r {
            Ok(code) => styles_field_methods(*field, texts(subfields@), index) == Ok::<
                Seq<char>,
                DeriveError,
            >(code@),
            Err(e) => styles_field_methods(*field, texts(subfields@), index) == Err::<
                Seq<char>,
                DeriveError,
            >(e),
        },
{
    if field.ty.path.is_none() {
        return Err(DeriveError::TypeNotPath(index));
    }
    if get_type_identifier(&field.ty).is_none() {
        return Err(DeriveError::TypeNotIdent(index));
    }
    let field_name = field.ident.as_str();
    if subfields.len() > 0 && (has_raw_mark(field_name) || has_raw_name(subfields)) {
        return Err(DeriveError::RawName(index));
    }
    let mut code = String::new();
    let mut i: usize = 0;
    while i < subfields.len()
        invariant
            i <= subfields.len(),
            field_name@ == field.ident@,
            code@ == styles_methods(field.ident@, texts(subfields@), i as int),
        decreases subfields.len() - i,
    {
        let subfield = subfields[i].as_str();
        let mut name = String::from_str(field_name);
        name.append("_");
        name.append(subfield);
        let mut path = String::from_str(field_name);
        path.append(".");
        path.append(subfield);
        code.append(style_method_code(name.as_str(), path.as_str()).as_str());
        i = i + 1;
    }
    Ok(code)
}

/// The methods of a theme and whether it has a table of colours, as text.
pub struct ThemeMethodsCode {
    pub methods: String,
    pub colors: bool,
}

impl View for ThemeMethodsCode {
    type V = ThemeMethods;

    open spec fn view(&self) -> ThemeMethods {
        ThemeMethods { methods: self.methods@, colors: self.colors }
    }
}

fn add_field(all: &mut ThemeMethodsCode, field: &Field, index: usize) -> (r: Result<(), DeriveError>)
    ensures
        match r {
            Ok(_) => with_field(old(all)@, *field, index) == Ok::<ThemeMethods, DeriveError>(
                final(all)@,
            ),
            Err(e) => with_field(old(all)@, *field, index) == Err::<ThemeMethods, DeriveError>(e),
        },
{
    let attr = match find_attribute(&field.attrs) {
        Some(attr) => attr,
        None => {
            return Ok(());
        },
    };
    let meta = match read_metadata(attr) {
        Ok(Some(meta)) => meta,
        Ok(None) => {
            return Ok(());
        },
        Err(e) => {
            return Err(DeriveError::Metadata(index, e));
        },
    };
    match meta {
        Metadata::Style => {
            all.methods.append(generate_style_method(field.ident.as_str()).as_str());
        },
        Metadata::Colors => {
            all.colors = true;
        },
        Metadata::Styles(subfields) => match styles_methods_code(field, &subfields, index) {
            Ok(code) => {
                all.methods.append(code.as_str());
            },
            Err(e) => {
                return Err(e);
            },
        },
    }
    Ok(())
}

fn theme_methods_code(fields: &Vec<Field>) -> (r: Result<ThemeMethodsCode, DeriveError>)
    ensures
        match r {
            Ok(code) => theme_methods(fields@, fields@.len() as int) == Ok::<
                ThemeMethods,
                DeriveError,
            >(code@),
            Err(e) => theme_methods(fields@, fields@.len() as int) == Err::<
                ThemeMethods,
                DeriveError,
            >(e),
        },
{
    let mut all = ThemeMethodsCode { methods: String::new(), colors: false };
    let mut i: usize = 0;
    while i < fields.len()
        invariant
            i <= fields.len(),
            theme_methods(fields@, i as int) == Ok::<ThemeMethods, DeriveError>(all@),
        decreases fields.len() - i,
    {
        match add_field(&mut all, &fields[i], i) {
            Ok(_) => {},
            Err(e) => {
                proof {
                    assert(theme_methods(fields@, i + 1) is Err);
                    lemma_first_error_stays(fields@, i + 1, fields@.len() as int);
                }
                return Err(e);
            },
        }
        i = i + 1;
    }
    Ok(all)
}

/// The methods for `input` as Rust code, or the first fault of the item.
fn expand(input: &DeriveInput) -> (r: Result<String, DeriveError>)
    ensures
        match r {
            Ok(code) => theme_expansion(*input) == Ok::<Seq<char>, DeriveError>(code@),
            Err(e) => theme_expansion(*input) == Err::<Seq<char>, DeriveError>(e),
        },
{
    let data = match &input.data {
        Data::Struct(data) => data,
        _ => {
            return Err(DeriveError::NotAStruct);
        },
    };
    let fields = match data {
        Fields::Named(fields) => fields,
        _ => {
            return Err(DeriveError::UnnamedFields);
        },
    };
    if fields.len() == 0 {
        return Err(DeriveError::NoFields);
    }
    let all = match theme_methods_code(fields) {
        Ok(all) => all,
        Err(e) => {
            return Err(e);
        },
    };
    let mut out = String::from_str("impl ");
    out.append(input.ident.as_str());
    out.append(" { ");
    out.append(all.methods.as_str());
    if all.colors {
        out.append(COLOR_FROM_TABLE);
    } else {
        out.append(COLOR_FROM_NAME);
    }
    out.append(" }");
    Ok(out)
}

/// The fault for which `field`, the field at position `index`, gets no
/// methods for the styles `subfields`: its type is no path or no single
/// name, or a method's name would hold the mark of a raw identifier. `None`
/// for a field without fault.
pub fn styles_fault(field: &Field, subfields: &Vec<String>, index: usize) -> (fault: Option<
    DeriveError,
>)
    ensures
        fault == fault_of(styles_field_methods(*field, texts(subfields@), index)),
{
    match styles_methods_code(field, subfields, index) {
        Ok(_) => None,
        Err(e) => Some(e),
    }
}

/// The methods that give the styles `subfields` of `field`, the field at
/// position `index`. The field has to be without fault, which
/// [`styles_fault`] tells.
pub fn generate_styles_method(field: &Field, subfields: &Vec<String>, index: usize) -> (code:
    String)
    requires
        styles_field_methods(*field, texts(subfields@), index) is Ok,
    ensures
        code@ == styles_methods(field.ident@, texts(subfields@), subfields@.len() as int),
{
    match styles_methods_code(field, subfields, index) {
        Ok(code) => code,
        Err(_) => unreached(),
    }
}

/// The fault for which a `theme` attribute has no metadata: it is no list,
/// its first word is none of the supported ones, or `styles` is not followed
/// by a group. `None` for an attribute without fault.
pub fn metadata_fault(attr: &Attribute) -> (fault: Option<MetadataError>)
    ensures
        fault == fault_of(attribute_metadata(*attr)),
{
    match read_metadata(attr) {
        Ok(_) => None,
        Err(e) => Some(e),
    }
}

/// Reads the metadata of a `theme` attribute, `None` for an empty list. The
/// attribute has to be without fault, which [`metadata_fault`] tells.
pub fn find_metadata(attr: &Attribute) -> (meta: Option<Metadata>)
    requires
        attribute_metadata(*attr) is Ok,
    ensures
        attribute_metadata(*attr) == Ok::<Option<MetadataView>, MetadataError>(
            metadata_view(meta),
        ),
{
    match read_metadata(attr) {
        Ok(meta) => meta,
        Err(_) => unreached(),
    }
}

/// The fault for which the derive gives no code for `input`: the item is no
/// struct, has fields without names or no field at all, or one of its fields
/// has a `theme` attribute that cannot be read or a type that cannot be a
/// struct of styles. `None` for an item without fault.
pub fn fault(input: &DeriveInput) -> (fault: Option<DeriveError>)
    ensures
        fault == fault_of(theme_expansion(*input)),
{
    match expand(input) {
        Ok(_) => None,
        Err(e) => Some(e),
    }
}

/// The derive of `Theme`: the methods for `input` as Rust code. The item has
/// to be without fault, which [`fault`] tells.
pub fn theme_macro(input: &DeriveInput) -> (code: String)
    requires
        theme_expansion(*input) is Ok,
    ensures
        theme_expansion(*input) == Ok::<Seq<char>, DeriveError>(code@),
{
    match expand(input) {
        Ok(code) => code,
        Err(_) => unreached(),
    }
}

} // verus!

//! The derive of a theme's `build` function from a set of colours.
//!
//! The struct names the type of its colours with
//! `#[builder(colors = Name)]`. A field with `#[style(..)]` becomes a style
//! whose colours are fields of that value, and any other field its type's
//! default. A colour is given in parentheses, as a name or as a string that
//! holds one: `#[style(fg(primary), bg("surface"), bold)]`.
//!
//! [`derive_from_colors`] writes the code for an item that has no fault;
//! [`fault`] says whether an item has one, and which.

use crate::error::{fault_of, DeriveError, StyleError};
use crate::meta::{
    after_item, item_end, keyed_ident, meta_path, path_ident, path_len, read_keyed_ident,
    AfterItem, Follow,
};
use crate::style_values::{style_constructor, StyleValues, StyleValuesView};
use crate::syntax::{
    attribute_named, find_attribute_named, Attribute, Data, Delimiter, DeriveInput, Field, Fields, Meta,
    Token,
};
use crate::words::{
    any_ident, bare, is_any_ident, is_bare, is_plain_ident, name_view, plain_ident,
    string_literal, string_literal_value,
};
use vstd::prelude::*;
use vstd::string::*;

verus! {

/// A colour as it stands in parentheses.
#[derive(Debug, PartialEq, Eq)]
pub enum ColourWord {
    /// The colour's name.
    Name(String),
    /// A string that is no name.
    NotAName,
    /// Neither a string nor a name.
    Missing,
}

/// [`ColourWord`] with the name as a sequence of characters.
pub ghost enum ColourWordView {
    Name(Seq<char>),
    NotAName,
    Missing,
}

impl View for ColourWord {
    type V = ColourWordView;

    open spec fn view(&self) -> ColourWordView {
        match self {
            ColourWord::Name(name) => ColourWordView::Name(name@),
            ColourWord::NotAName => ColourWordView::NotAName,
            ColourWord::Missing => ColourWordView::Missing,
        }
    }
}

/// Whether the string `value` is a name: it is read as one identifier, and
/// it holds nothing else, neither white space nor a comment.
pub open spec fn names_identifier(value: Seq<char>) -> bool {
    any_ident(value) && is_bare(value)
}

/// The colour that stands in a pair of parentheses, whose content has to be
/// one token: a string literal that holds a name, or a name that is no
/// keyword.
pub open spec fn group_colour(content: Seq<Token>) -> ColourWordView {
    if content.len() != 1 {
        ColourWordView::Missing
    } else {
        match content[0] {
            Token::Literal(repr) => match string_literal(repr@) {
                Some(value) => if names_identifier(value) {
                    ColourWordView::Name(value)
                } else {
                    ColourWordView::NotAName
                },
                None => ColourWordView::Missing,
            },
            Token::Ident(name) => if plain_ident(name@) {
                ColourWordView::Name(name@)
            } else {
                ColourWordView::Missing
            },
            _ => ColourWordView::Missing,
        }
    }
}

/// What reading one item of a `style` list comes to.
pub ghost enum StyleItem {
    /// The values after the item and the position behind it.
    Read(StyleValuesView, int),
    /// The item does not fit.
    Misfit,
    /// The item gives a colour as a string that is no name.
    Invalid,
}

/// The content of the parentheses at `pos`, if a group in parentheses
/// stands there.
pub open spec fn parenthesized_at(tokens: Seq<Token>, pos: int) -> Option<Seq<Token>> {
    if 0 <= pos < tokens.len() {
        match tokens[pos] {
            Token::Group(Delimiter::Parenthesis, content) => Some(content@),
            _ => None,
        }
    } else {
        None
    }
}

/// What one item of a `style` list does to `values`. A name followed by
/// parentheses is a key with its colour; the keys that are no colour keys
/// change nothing. Any other single word is a flag, and a longer path
/// without parentheses does nothing.
pub open spec fn style_item(tokens: Seq<Token>, pos: int, values: StyleValuesView) -> StyleItem {
    match path_len(tokens, pos) {
        None => StyleItem::Misfit,
        Some(n) => match parenthesized_at(tokens, pos + n) {
            Some(content) => match path_ident(tokens, pos) {
                None => StyleItem::Misfit,
                Some(name) => match group_colour(content) {
                    ColourWordView::Name(colour) => StyleItem::Read(
                        values.with_colour(name, colour),
                        pos + n + 1,
                    ),
                    ColourWordView::NotAName => StyleItem::Invalid,
                    ColourWordView::Missing => StyleItem::Misfit,
                },
            },
            None => match path_ident(tokens, pos) {
                Some(name) => StyleItem::Read(values.with_flag(name), pos + n),
                None => StyleItem::Read(values, pos + n),
            },
        },
    }
}

/// What a `style` list makes of `values` when it is read from `pos` on, or
/// the first fault of the list: an item that does not fit, anything but a
/// comma between two items, or a colour given as a string that is no name.
pub open spec fn style_from(tokens: Seq<Token>, pos: int, values: StyleValuesView) -> Result<
    StyleValuesView,
    StyleError,
>
    decreases tokens.len() - pos,
{
    match style_item(tokens, pos, values) {
        StyleItem::Invalid => Err(StyleError::InvalidColour),
        StyleItem::Misfit => Err(StyleError::Malformed),
        StyleItem::Read(after, end) => match after_item(tokens, end) {
            Follow::Next(next) => style_from(tokens, next, after),
            Follow::End => Ok(after),
            Follow::Fault => Err(StyleError::Malformed),
        },
    }
}

/// What the attribute `style(..)` asks for: nothing for an empty list, and
/// an error for an attribute that is no list and for a list with a fault.
pub open spec fn style_values(attr: Attribute) -> Result<StyleValuesView, StyleError> {
    match attr.meta {
        Meta::List(tokens) => if tokens@.len() == 0 {
            Ok(StyleValuesView::empty())
        } else {
            style_from(tokens@, 0, StyleValuesView::empty())
        },
        _ => Err(StyleError::NotAList),
    }
}

/// The code that initialises the field at position `index`.
pub open spec fn field_constructor(field: Field, index: usize) -> Result<Seq<char>, DeriveError> {
    match attribute_named(field.attrs@, "style"@) {
        Some(attr) => match style_values(attr) {
            Ok(values) => Ok(style_constructor(field.ident@, values, "color"@)),
            Err(e) => Err(DeriveError::Style(index, e)),
        },
        None => Ok(field.ident@ + ": < "@ + field.ty.text@ + " >::default()"@),
    }
}

/// The code that initialises the first `count` fields, separated by commas,
/// or the error of the first field that has one.
pub open spec fn field_constructors(fields: Seq<Field>, count: int) -> Result<Seq<char>, DeriveError>
    decreases count,
{
    if count <= 0 {
        Ok(Seq::empty())
    } else {
        match field_constructors(fields, count - 1) {
            Err(e) => Err(e),
            Ok(before) => match field_constructor(fields[count - 1], (count - 1) as usize) {
                Err(e) => Err(e),
                Ok(code) => Ok(
                    if count == 1 {
                        code
                    } else {
                        before + ", "@ + code
                    },
                ),
            },
        }
    }
}

/// The function `build` of the struct `name`, which takes the colours
/// `colors`, `fields` being the code that initialises the struct's fields.
pub open spec fn build_impl(name: Seq<char>, colors: Seq<char>, fields: Seq<char>) -> Seq<char> {
    "impl "@ + name + " { pub fn build(color: "@ + colors + ") -> Self { Self { "@ + fields
        + " } } }"@
}

/// What the derive makes of `input`: the function `build`, or the first
/// fault of the item.
pub open spec fn colors_expansion(input: DeriveInput) -> Result<Seq<char>, DeriveError> {
    match input.data {
        Data::Struct(fields) => match attribute_named(input.attrs@, "builder"@) {
            None => Err(DeriveError::MissingBuilder),
            Some(attr) => match keyed_ident(attr, "colors"@) {
                None => Err(DeriveError::MissingContext),
                Some(colors) => match fields {
                    Fields::Named(fields) => match field_constructors(fields@, fields@.len() as int) {
                        Ok(code) => Ok(build_impl(input.ident@, colors, code)),
                        Err(e) => Err(e),
                    },
                    _ => Err(DeriveError::UnnamedFields),
                },
            },
        },
        _ => Err(DeriveError::NotAStruct),
    }
}

/// Whether `text` can stand for a colour: it is a name that is no keyword,
/// or a string that holds a name.
pub open spec fn names_colour(text: Seq<char>) -> bool {
    plain_ident(text) || names_identifier(text)
}

/// A colour that a `style` list sets is a name that is no keyword, or a
/// string that holds a name.
pub proof fn lemma_colours_are_names(tokens: Seq<Token>, pos: int, values: StyleValuesView)
    requires
        0 <= pos,
    ensures
        style_from(tokens, pos, values) matches Ok(read) ==> {
            &&& read.foreground matches Some(colour) ==> values.foreground == Some(colour)
                || names_colour(colour)
            &&& read.background matches Some(colour) ==> values.background == Some(colour)
                || names_colour(colour)
        },
    decreases tokens.len() - pos,
{
    if let StyleItem::Read(after, end) = style_item(tokens, pos, values) {
        if let Follow::Next(next) = after_item(tokens, end) {
            lemma_colours_are_names(tokens, next, after);
        }
    }
}

/// An error among the first fields is the error of the whole.
pub proof fn lemma_first_error_stays(fields: Seq<Field>, count: int, more: int)
    requires
        count <= more,
        field_constructors(fields, count) is Err,
    ensures
        field_constructors(fields, more) == field_constructors(fields, count),
    decreases more - count,
{
    if count < more {
        lemma_first_error_stays(fields, count, more - 1);
    }
}

/// An error of the first `count` fields is about one of them.
pub proof fn lemma_error_is_about_a_field(fields: Seq<Field>, count: int)
    requires
        0 <= count <= usize::MAX,
    ensures
        field_constructors(fields, count) matches Err(e) ==> e.field_index() matches Some(i) && i < count,
    decreases count,
{
    if count > 0 {
        lemma_error_is_about_a_field(fields, count - 1);
    }
}

/// An error of the derive that is about a field gives the position of one of
/// the item's named fields.
pub proof fn lemma_error_position(input: DeriveInput)
    ensures
        colors_expansion(input) matches Err(e) ==> (e.field_index() matches Some(i) ==> input.data
            matches Data::Struct(Fields::Named(fields)) && i < fields@.len()),
{
    if let Data::Struct(Fields::Named(fields)) = input.data {
        assert(fields@.len() == fields.len());
        lemma_error_is_about_a_field(fields@, fields@.len() as int);
    }
}

/// Finds the `builder` attribute.
pub fn extract_builder_attribute(attrs: &Vec<Attribute>) -> (r: Option<&Attribute>)
    ensures
        match r {
            Some(attr) => attribute_named(attrs@, "builder"@) == Some(*attr),
            None => attribute_named(attrs@, "builder"@) is None,
        },
{
    find_attribute_named(attrs, "builder")
}

/// Finds the `style` attribute.
pub fn extract_style_attribute(attrs: &Vec<Attribute>) -> (r: Option<&Attribute>)
    ensures
        match r {
            Some(attr) => attribute_named(attrs@, "style"@) == Some(*attr),
            None => attribute_named(attrs@, "style"@) is None,
        },
{
    find_attribute_named(attrs, "style")
}

/// Reads the name of the colours' type from the struct's `builder`
/// attribute.
pub fn process_builder_attribute(attr: &Attribute) -> (colors: Option<String>)
    ensures
        name_view(colors) == keyed_ident(*attr, "colors"@),
{
    read_keyed_ident(attr, "colors")
}

/// The colour that a string literal with the value `value` gives, `names`
/// saying whether the value is read as one identifier.
pub fn colour_of_string(value: String, names: bool) -> (word: ColourWord)
    ensures
        word@ == if names && is_bare(value@) {
            ColourWordView::Name(value@)
        } else {
            ColourWordView::NotAName
        },
{
    if names && bare(value.as_str()) {
        ColourWord::Name(value)
    } else {
        ColourWord::NotAName
    }
}

/// The colour that the name `name` gives, `plain` saying whether the name is
/// no keyword.
pub fn colour_of_name(name: &String, plain: bool) -> (word: ColourWord)
    ensures
        word@ == if plain {
            ColourWordView::Name(name@)
        } else {
            ColourWordView::Missing
        },
{
    if plain {
        ColourWord::Name(name.clone())
    } else {
        ColourWord::Missing
    }
}

/// Reads the colour that stands in a pair of parentheses.
pub fn colour_in_group(content: &Vec<Token>) -> (word: ColourWord)
    ensures
        word@ == group_colour(content@),
{
    if content.len() != 1 {
        return ColourWord::Missing;
    }
    match &content[0] {
        Token::Literal(repr) => match string_literal_value(repr.as_str()) {
            Some(value) => {
                let names = is_any_ident(value.as_str());
                colour_of_string(value, names)
            },
            None => ColourWord::Missing,
        },
        Token::Ident(name) => colour_of_name(name, is_plain_ident(name.as_str())),
        _ => ColourWord::Missing,
    }
}

/// Reads what a `style` attribute asks for.
pub fn process_style_attribute(attr: &Attribute) -> (r: Result<StyleValues, StyleError>)
    ensures
        match r {
            Ok(values) => style_values(*attr) == Ok::<StyleValuesView, StyleError>(values@),
            Err(e) => style_values(*attr) == Err::<StyleValuesView, StyleError>(e),
        },
{
    let tokens = match &attr.meta {
        Meta::List(tokens) => tokens,
        _ => {
            return Err(StyleError::NotAList);
        },
    };
    let mut values = StyleValues::new();
    if tokens.len() == 0 {
        return Ok(values);
    }
    let mut pos: usize = 0;
    loop
        invariant
            style_values(*attr) == style_from(tokens@, pos as int, values@),
            attr.meta == Meta::List(*tokens),
        decreases tokens.len() - pos,
    {
        let path = match meta_path(tokens, pos) {
            Some(path) => path,
            None => {
                return Err(StyleError::Malformed);
            },
        };
        let mut end = path.end;
        let group = if end < tokens.len() {
            match &tokens[end] {
                Token::Group(Delimiter::Parenthesis, content) => Some(content),
                _ => None,
            }
        } else {
            None
        };
        match group {
            Some(content) => {
                let name = match path.ident {
                    Some(name) => name,
                    None => {
                        return Err(StyleError::Malformed);
                    },
                };
                match colour_in_group(content) {
                    ColourWord::Name(colour) => {
                        values.set_colour(name.as_str(), colour.as_str());
                        end = end + 1;
                    },
                    ColourWord::NotAName => {
                        return Err(StyleError::InvalidColour);
                    },
                    ColourWord::Missing => {
                        return Err(StyleError::Malformed);
                    },
                }
            },
            None => {
                if let Some(name) = path.ident {
                    values.set_flag(name.as_str());
                }
            },
        }
        match item_end(tokens, end) {
            AfterItem::Next(next) => {
                pos = next;
            },
            AfterItem::End => {
                return Ok(values);
            },
            AfterItem::Fault => {
                return Err(StyleError::Malformed);
            },
        }
    }
}

fn field_constructor_code(field: &Field, index: usize) -> (r: Result<String, DeriveError>)
    ensures
        match r {
            Ok(code) => field_constructor(*field, index) == Ok::<Seq<char>, DeriveError>(code@),
            Err(e) => field_constructor(*field, index) == Err::<Seq<char>, DeriveError>(e),
        },
{
    if let Some(attr) = extract_style_attribute(&field.attrs) {
        return match process_style_attribute(attr) {
            Ok(values) => Ok(values.constructor(field.ident.as_str(), "color")),
            Err(e) => Err(DeriveError::Style(index, e)),
        };
    }
    let mut code = String::from_str(field.ident.as_str());
    code.append(": < ");
    code.append(field.ty.text.as_str());
    code.append(" >::default()");
    Ok(code)
}

fn field_constructors_code(fields: &Vec<Field>) -> (r: Result<String, DeriveError>)
    ensures
        match r {
            Ok(code) => field_constructors(fields@, fields@.len() as int) == Ok::<
                Seq<char>,
                DeriveError,
            >(code@),
            Err(e) => field_constructors(fields@, fields@.len() as int) == Err::<
                Seq<char>,
                DeriveError,
            >(e),
        },
{
    let mut body = String::new();
    let mut i: usize = 0;
    while i < fields.len()
        invariant
            i <= fields.len(),
            field_constructors(fields@, i as int) == Ok::<Seq<char>, DeriveError>(body@),
        decreases fields.len() - i,
    {
        match field_constructor_code(&fields[i], i) {
            Ok(code) => {
                if i > 0 {
                    body.append(", ");
                    body.append(code.as_str());
                } else {
                    body = code;
                }
            },
            Err(e) => {
                proof {
                    assert(field_constructors(fields@, i + 1) is Err);
                    lemma_first_error_stays(fields@, i + 1, fields@.len() as int);
                }
                return Err(e);
            },
        }
        i = i + 1;
    }
    Ok(body)
}

/// The function `build` for `input` as Rust code, or the first fault of the
/// item.
fn expand(input: &DeriveInput) -> (r: Result<String, DeriveError>)
    ensures
        match r {
            Ok(code) => colors_expansion(*input) == Ok::<Seq<char>, DeriveError>(code@),
            Err(e) => colors_expansion(*input) == Err::<Seq<char>, DeriveError>(e),
        },
{
    let data = match &input.data {
        Data::Struct(data) => data,
        _ => {
            return Err(DeriveError::NotAStruct);
        },
    };
    let attr = match extract_builder_attribute(&input.attrs) {
        Some(attr) => attr,
        None => {
            return Err(DeriveError::MissingBuilder);
        },
    };
    let colors = match process_builder_attribute(attr) {
        Some(colors) => colors,
        None => {
            return Err(DeriveError::MissingContext);
        },
    };
    let fields = match data {
        Fields::Named(fields) => fields,
        _ => {
            return Err(DeriveError::UnnamedFields);
        },
    };
    let body = match field_constructors_code(fields) {
        Ok(body) => body,
        Err(e) => {
            return Err(e);
        },
    };
    let mut out = String::from_str("impl ");
    out.append(input.ident.as_str());
    out.append(" { pub fn build(color: ");
    out.append(colors.as_str());
    out.append(") -> Self { Self { ");
    out.append(body.as_str());
    out.append(" } } }");
    Ok(out)
}

/// The fault for which the derive gives no code for `input`: the item is no
/// struct, names no type of colours, has fields without names, or one of its
/// fields has a `style` attribute that cannot be read. `None` for an item
/// without fault.
pub fn fault(input: &DeriveInput) -> (fault: Option<DeriveError>)
    ensures
        fault == fault_of(colors_expansion(*input)),
{
    match expand(input) {
        Ok(_) => None,
        Err(e) => Some(e),
    }
}

/// The derive of a theme's `build` function: the function for `input` as
/// Rust code. The item has to be without fault, which [`fault`] tells.
pub fn derive_from_colors(input: &DeriveInput) -> (code: String)
    requires
        colors_expansion(*input) is Ok,
    ensures
        colors_expansion(*input) == Ok::<Seq<char>, DeriveError>(code@),
{
    match expand(input) {
        Ok(code) => code,
        Err(_) => unreached(),
    }
}

} // verus!

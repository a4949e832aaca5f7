//! The derive of `ThemeBuilder`: code that builds a theme from a context.
//!
//! The struct names its context with `#[builder(context = Name)]`. A field
//! with `#[style(..)]` becomes a style whose colours are fields of the
//! context, a field with `#[builder(value = path)]` a clone of that part of
//! the context, and any other field its type's default.
//!
//! [`derive_theme_builder`] writes the code for an item that has no fault;
//! [`fault`] says whether an item has one, and which.

use crate::error::{fault_of, DeriveError, StyleError};
use crate::meta::{
    after_item, assigned_ident, assigned_ident_at, item_end, keyed_ident, meta_path, path_ident,
    path_len, punct_at, read_keyed_ident, AfterItem, Follow,
};
use crate::style_values::{
    is_colour_key, style_constructor, takes_colour, StyleValues, StyleValuesView,
};
use crate::syntax::{
    attribute_named, find_attribute_named, Attribute, Data, DeriveInput, Field, Fields, Meta,
    Token,
};
use crate::words::{is_plain_ident, name_view, plain_ident, same_text};
use vstd::prelude::*;
use vstd::string::*;

verus! {

/// What one item of a `style` list does to `values`, and the position behind
/// the item: a colour key takes `= name`, any other single word is a flag,
/// and a longer path does nothing. `None` for a colour key without a name
/// and where no path starts.
pub open spec fn style_item(tokens: Seq<Token>, pos: int, values: StyleValuesView) -> Option<
    (StyleValuesView, int),
> {
    match path_len(tokens, pos) {
        None => None,
        Some(n) => match path_ident(tokens, pos) {
            None => Some((values, pos + n)),
            Some(name) => if is_colour_key(name) {
                match assigned_ident(tokens, pos + n) {
                    Some(colour) => Some((values.with_colour(name, colour), pos + n + 2)),
                    None => None,
                }
            } else {
                Some((values.with_flag(name), pos + n))
            },
        },
    }
}

/// What a `style` list makes of `values` when it is read from `pos` on,
/// `None` for a list with an item that does not fit or with anything but a
/// comma between two items.
pub open spec fn style_from(tokens: Seq<Token>, pos: int, values: StyleValuesView) -> Option<
    StyleValuesView,
>
    decreases tokens.len() - pos,
{
    match style_item(tokens, pos, values) {
        None => None,
        Some((after, end)) => match after_item(tokens, end) {
            Follow::Next(next) => style_from(tokens, next, after),
            Follow::End => Some(after),
            Follow::Fault => None,
        },
    }
}

/// What the attribute `style(..)` asks for, as in
/// `style(fg = primary, bg = surface, bold)`: nothing for an empty list, and
/// an error for an attribute that is no list and for a malformed list.
pub open spec fn style_values(attr: Attribute) -> Result<StyleValuesView, StyleError> {
    match attr.meta {
        Meta::List(tokens) => if tokens@.len() == 0 {
            Ok(StyleValuesView::empty())
        } else {
            match style_from(tokens@, 0, StyleValuesView::empty()) {
                Some(values) => Ok(values),
                None => Err(StyleError::Malformed),
            }
        },
        _ => Err(StyleError::NotAList),
    }
}

/// The text of one token of a value: a name that is no keyword, or a dot.
pub open spec fn value_word(token: Token) -> Option<Seq<char>> {
    match token {
        Token::Ident(name) => if plain_ident(name@) {
            Some(name@)
        } else {
            None
        },
        Token::Punct(c, _) => if c == '.' {
            Some("."@)
        } else {
            None
        },
        _ => None,
    }
}

/// The text of the tokens from `pos` to the end, with one space between two
/// tokens, if each of them is a name or a dot.
pub open spec fn value_text(tokens: Seq<Token>, pos: int) -> Option<Seq<char>>
    decreases tokens.len() - pos,
{
    if pos < 0 || pos >= tokens.len() {
        Some(Seq::empty())
    } else {
        match (value_word(tokens[pos]), value_text(tokens, pos + 1)) {
            (Some(word), Some(rest)) => Some(
                if pos + 1 < tokens.len() {
                    word + " "@ + rest
                } else {
                    word
                },
            ),
            _ => None,
        }
    }
}

/// The value of a field's attribute `builder(value = path)`: the path is all
/// that the attribute holds, and is made of names and dots.
pub open spec fn builder_value(attr: Attribute) -> Option<Seq<char>> {
    let tokens = attr.tokens();
    if path_ident(tokens, 0) == Some("value"@) && punct_at(tokens, 1, '=') {
        value_text(tokens, 2)
    } else {
        None
    }
}

/// The code that initialises the field at position `index`, or the fault of
/// its `style` or `builder` attribute.
pub open spec fn field_constructor(field: Field, index: usize) -> Result<Seq<char>, DeriveError> {
    match attribute_named(field.attrs@, "style"@) {
        Some(attr) => match style_values(attr) {
            Ok(values) => Ok(style_constructor(field.ident@, values, "context"@)),
            Err(e) => Err(DeriveError::Style(index, e)),
        },
        None => match attribute_named(field.attrs@, "builder"@) {
            Some(attr) => match builder_value(attr) {
                Some(value) => Ok(field.ident@ + ": context . "@ + value + " . clone()"@),
                None => Err(DeriveError::MissingValue(index)),
            },
            None => Ok(field.ident@ + ": < "@ + field.ty.text@ + " >::default()"@),
        },
    }
}

/// The code that initialises the first `count` fields, separated by commas,
/// or the error of the first field that has one.
pub open spec fn field_constructors(fields: Seq<Field>, count: int) -> Result<Seq<char>, DeriveError>
    decreases count,
{
    if count <= 0 {
        Ok(Seq::empty())
    } else {
        match field_constructors(fields, count - 1) {
            Err(e) => Err(e),
            Ok(before) => match field_constructor(fields[count - 1], (count - 1) as usize) {
                Err(e) => Err(e),
                Ok(code) => Ok(
                    if count == 1 {
                        code
                    } else {
                        before + ", "@ + code
                    },
                ),
            },
        }
    }
}

/// The implementation of `ThemeBuilder` for the struct `name` with the
/// context `context`, `fields` being the code that initialises its fields.
pub open spec fn builder_impl(name: Seq<char>, context: Seq<char>, fields: Seq<char>) -> Seq<char> {
    "impl tui_theme_builder::ThemeBuilder for "@ + name + " { type Context = "@ + context
        + "; fn build(context: &"@ + context + ") -> Self { Self { "@ + fields + " } } }"@
}

/// What the derive makes of `input`: the implementation of `ThemeBuilder`,
/// or the first fault of the item.
pub open spec fn builder_expansion(input: DeriveInput) -> Result<Seq<char>, DeriveError> {
    match input.data {
        Data::Struct(fields) => match attribute_named(input.attrs@, "builder"@) {
            None => Err(DeriveError::MissingBuilder),
            Some(attr) => match keyed_ident(attr, "context"@) {
                None => Err(DeriveError::MissingContext),
                Some(context) => match fields {
                    Fields::Named(fields) => match field_constructors(fields@, fields@.len() as int) {
                        Ok(code) => Ok(builder_impl(input.ident@, context, code)),
                        Err(e) => Err(e),
                    },
                    _ => Err(DeriveError::UnnamedFields),
                },
            },
        },
        _ => Err(DeriveError::NotAStruct),
    }
}

/// An error of the first `count` fields is about one of them.
pub proof fn lemma_error_is_about_a_field(fields: Seq<Field>, count: int)
    requires
        0 <= count <= usize::MAX,
    ensures
        field_constructors(fields, count) matches Err(e) ==> e.field_index() matches Some(i) && i < count,
    decreases count,
{
    if count > 0 {
        lemma_error_is_about_a_field(fields, count - 1);
    }
}

/// An error of the derive that is about a field gives the position of one of
/// the item's named fields.
pub proof fn lemma_error_position(input: DeriveInput)
    ensures
        builder_expansion(input) matches Err(e) ==> (e.field_index() matches Some(i) ==> input.data
            matches Data::Struct(Fields::Named(fields)) && i < fields@.len()),
{
    if let Data::Struct(Fields::Named(fields)) = input.data {
        assert(fields@.len() == fields.len());
        lemma_error_is_about_a_field(fields@, fields@.len() as int);
    }
}

/// Whether the word `word` stands among the tokens from `pos` on.
pub open spec fn names_word(tokens: Seq<Token>, pos: int, word: Seq<char>) -> bool {
    exists|i: int| pos <= i < tokens.len() && (#[trigger] tokens[i]).ident_text() == Some(word)
}

/// A `style` list switches a modifier on only where it names the modifier,
/// and a colour that it sets is a word of the list that is no keyword.
pub proof fn lemma_style_comes_from_words(tokens: Seq<Token>, pos: int, values: StyleValuesView)
    requires
        0 <= pos,
    ensures
        style_from(tokens, pos, values) matches Some(read) ==> ({
            &&& read.bold is Some ==> values.bold is Some || names_word(tokens, pos, "bold"@)
            &&& read.dim is Some ==> values.dim is Some || names_word(tokens, pos, "dim"@)
            &&& read.italic is Some ==> values.italic is Some || names_word(tokens, pos, "italic"@)
            &&& read.underlined is Some ==> values.underlined is Some || names_word(
                tokens,
                pos,
                "underlined"@,
            )
            &&& read.slow_blink is Some ==> values.slow_blink is Some || names_word(
                tokens,
                pos,
                "slow_blink"@,
            )
            &&& read.rapid_blink is Some ==> values.rapid_blink is Some || names_word(
                tokens,
                pos,
                "rapid_blink"@,
            )
            &&& read.reversed is Some ==> values.reversed is Some || names_word(
                tokens,
                pos,
                "reversed"@,
            )
            &&& read.hidden is Some ==> values.hidden is Some || names_word(tokens, pos, "hidden"@)
            &&& read.crossed_out is Some ==> values.crossed_out is Some || names_word(
                tokens,
                pos,
                "crossed_out"@,
            )
            &&& read.foreground matches Some(colour) ==> values.foreground == Some(colour) || (
            plain_ident(colour) && names_word(tokens, pos, colour))
            &&& read.background matches Some(colour) ==> values.background == Some(colour) || (
            plain_ident(colour) && names_word(tokens, pos, colour))
        }),
    decreases tokens.len() - pos,
{
    if let Some((after, end)) = style_item(tokens, pos, values) {
        if let Follow::Next(next) = after_item(tokens, end) {
            lemma_style_comes_from_words(tokens, next, after);
        }
    }
}

/// Finds the `builder` attribute.
pub fn extract_builder_attribute(attrs: &Vec<Attribute>) -> (r: Option<&Attribute>)
    ensures
        match r {
            Some(attr) => attribute_named(attrs@, "builder"@) == Some(*attr),
            None => attribute_named(attrs@, "builder"@) is None,
        },
{
    find_attribute_named(attrs, "builder")
}

/// Finds the `style` attribute.
pub fn extract_style_attribute(attrs: &Vec<Attribute>) -> (r: Option<&Attribute>)
    ensures
        match r {
            Some(attr) => attribute_named(attrs@, "style"@) == Some(*attr),
            None => attribute_named(attrs@, "style"@) is None,
        },
{
    find_attribute_named(attrs, "style")
}

/// Reads the name of the context from the struct's `builder` attribute.
pub fn process_builder_struct_attribute(attr: &Attribute) -> (context: Option<String>)
    ensures
        name_view(context) == keyed_ident(*attr, "context"@),
{
    read_keyed_ident(attr, "context")
}

/// The text of `token` as a word of a value, `plain` saying whether a name
/// is no keyword.
pub fn value_word_of(token: &Token, plain: bool) -> (r: Option<&str>)
    ensures
        match token {
            Token::Ident(name) => r matches Some(word) ==> word@ == name@,
            Token::Punct(c, _) => r matches Some(word) ==> word@ == "."@,
            _ => r is None,
        },
        match token {
            Token::Ident(name) => r is Some == plain,
            Token::Punct(c, _) => r is Some == (c == '.'),
            _ => true,
        },
{
    match token {
        Token::Ident(name) => if plain {
            Some(name.as_str())
        } else {
            None
        },
        Token::Punct(c, _) => if *c == '.' {
            Some(".")
        } else {
            None
        },
        _ => None,
    }
}

/// Reads the tokens from `pos` to the end as a value: names and dots.
pub fn parse_stream_to_token_stream(tokens: &Vec<Token>, pos: usize) -> (r: Option<String>)
    ensures
        name_view(r) == value_text(tokens@, pos as int),
{
    let mut out = String::new();
    let mut i = pos;
    while i < tokens.len()
        invariant
            pos <= i,
            value_text(tokens@, pos as int) == match value_text(tokens@, i as int) {
                Some(rest) => Some(out@ + rest),
                None => None,
            },
        decreases tokens.len() - i,
    {
        let token = &tokens[i];
        let plain = match token {
            Token::Ident(name) => is_plain_ident(name.as_str()),
            _ => false,
        };
        match value_word_of(token, plain) {
            Some(word) => {
                out.append(word);
                if tokens.len() - i > 1 {
                    out.append(" ");
                }
            },
            None => {
                return None;
            },
        }
        i = i + 1;
    }
    Some(out)
}

/// Reads the value of a field's `builder` attribute.
pub fn process_builder_field_attribute(attr: &Attribute) -> (value: Option<String>)
    ensures
        name_view(value) == builder_value(*attr),
{
    if let Meta::List(tokens) = &attr.meta {
        let fits = match meta_path(tokens, 0) {
            Some(path) => path.end == 1 && match path.ident {
                Some(name) => same_text(name.as_str(), "value"),
                None => false,
            },
            None => false,
        };
        if fits && tokens.len() > 1 && tokens[1].punct_is('=') {
            return parse_stream_to_token_stream(tokens, 2);
        }
    }
    None
}

/// Reads what a `style` attribute asks for.
pub fn process_style_attribute(attr: &Attribute) -> (r: Result<StyleValues, StyleError>)
    ensures
        match r {
            Ok(values) => style_values(*attr) == Ok::<StyleValuesView, StyleError>(values@),
            Err(e) => style_values(*attr) == Err::<StyleValuesView, StyleError>(e),
        },
{
    let tokens = match &attr.meta {
        Meta::List(tokens) => tokens,
        _ => {
            return Err(StyleError::NotAList);
        },
    };
    let mut values = StyleValues::new();
    if tokens.len() == 0 {
        return Ok(values);
    }
    let mut pos: usize = 0;
    loop
        invariant
            style_values(*attr) == match style_from(tokens@, pos as int, values@) {
                Some(read) => Ok::<StyleValuesView, StyleError>(read),
                None => Err(StyleError::Malformed),
            },
        decreases tokens.len() - pos,
    {
        let path = match meta_path(tokens, pos) {
            Some(path) => path,
            None => {
                return Err(StyleError::Malformed);
            },
        };
        let mut end = path.end;
        if let Some(name) = path.ident {
            if takes_colour(name.as_str()) {
                match assigned_ident_at(tokens, end) {
                    Some(colour) => {
                        values.set_colour(name.as_str(), colour.as_str());
                        end = end + 2;
                    },
                    None => {
                        return Err(StyleError::Malformed);
                    },
                }
            } else {
                values.set_flag(name.as_str());
            }
        }
        match item_end(tokens, end) {
            AfterItem::Next(next) => {
                pos = next;
            },
            AfterItem::End => {
                return Ok(values);
            },
            AfterItem::Fault => {
                return Err(StyleError::Malformed);
            },
        }
    }
}

/// The code that initialises `field`, the field at position `index`.
fn field_constructor_code(field: &Field, index: usize) -> (r: Result<String, DeriveError>)
    ensures
        match r {
            Ok(code) => field_constructor(*field, index) == Ok::<Seq<char>, DeriveError>(code@),
            Err(e) => field_constructor(*field, index) == Err::<Seq<char>, DeriveError>(e),
        },
{
    if let Some(attr) = extract_style_attribute(&field.attrs) {
        return match process_style_attribute(attr) {
            Ok(values) => Ok(values.constructor(field.ident.as_str(), "context")),
            Err(e) => Err(DeriveError::Style(index, e)),
        };
    }
    if let Some(attr) = extract_builder_attribute(&field.attrs) {
        return match process_builder_field_attribute(attr) {
            Some(value) => {
                let mut code = String::from_str(field.ident.as_str());
                code.append(": context . ");
                code.append(value.as_str());
                code.append(" . clone()");
                Ok(code)
            },
            None => Err(DeriveError::MissingValue(index)),
        };
    }
    let mut code = String::from_str(field.ident.as_str());
    code.append(": < ");
    code.append(field.ty.text.as_str());
    code.append(" >::default()");
    Ok(code)
}

/// An error among the first fields is the error of the whole.
pub proof fn lemma_first_error_stays(fields: Seq<Field>, count: int, more: int)
    requires
        count <= more,
        field_constructors(fields, count) is Err,
    ensures
        field_constructors(fields, more) == field_constructors(fields, count),
    decreases more - count,
{
    if count < more {
        lemma_first_error_stays(fields, count, more - 1);
    }
}

/// The code that initialises the fields, separated by commas, or the error of
/// the first field that has one.
fn field_constructors_code(fields: &Vec<Field>) -> (r: Result<String, DeriveError>)
    ensures
        match r {
            Ok(code) => field_constructors(fields@, fields@.len() as int) == Ok::<
                Seq<char>,
                DeriveError,
            >(code@),
            Err(e) => field_constructors(fields@, fields@.len() as int) == Err::<
                Seq<char>,
                DeriveError,
            >(e),
        },
{
    let mut body = String::new();
    let mut i: usize = 0;
    while i < fields.len()
        invariant
            i <= fields.len(),
            field_constructors(fields@, i as int) == Ok::<Seq<char>, DeriveError>(body@),
        decreases fields.len() - i,
    {
        match field_constructor_code(&fields[i], i) {
            Ok(code) => {
                if i > 0 {
                    body.append(", ");
                    body.append(code.as_str());
                } else {
                    body = code;
                }
            },
            Err(e) => {
                proof {
                    assert(field_constructors(fields@, i + 1) is Err);
                    lemma_first_error_stays(fields@, i + 1, fields@.len() as int);
                }
                return Err(e);
            },
        }
        i = i + 1;
    }
    Ok(body)
}

/// The implementation of `ThemeBuilder` for `input` as Rust code, or the
/// first fault of the item.
fn expand(input: &DeriveInput) -> (r: Result<String, DeriveError>)
    ensures
        match r {
            Ok(code) => builder_expansion(*input) == Ok::<Seq<char>, DeriveError>(code@),
            Err(e) => builder_expansion(*input) == Err::<Seq<char>, DeriveError>(e),
        },
{
    let data = match &input.data {
        Data::Struct(data) => data,
        _ => {
            return Err(DeriveError::NotAStruct);
        },
    };
    let attr = match extract_builder_attribute(&input.attrs) {
        Some(attr) => attr,
        None => {
            return Err(DeriveError::MissingBuilder);
        },
    };
    let context = match process_builder_struct_attribute(attr) {
        Some(context) => context,
        None => {
            return Err(DeriveError::MissingContext);
        },
    };
    let fields = match data {
        Fields::Named(fields) => fields,
        _ => {
            return Err(DeriveError::UnnamedFields);
        },
    };
    let body = match field_constructors_code(fields) {
        Ok(body) => body,
        Err(e) => {
            return Err(e);
        },
    };
    let mut out = String::from_str("impl tui_theme_builder::ThemeBuilder for ");
    out.append(input.ident.as_str());
    out.append(" { type Context = ");
    out.append(context.as_str());
    out.append("; fn build(context: &");
    out.append(context.as_str());
    out.append(") -> Self { Self { ");
    out.append(body.as_str());
    out.append(" } } }");
    Ok(out)
}

/// The fault for which the derive gives no code for `input`: the item is no
/// struct, names no context, has fields without names, or one of its fields
/// has an attribute that cannot be read. `None` for an item without fault.
pub fn fault(input: &DeriveInput) -> (fault: Option<DeriveError>)
    ensures
        fault == fault_of(builder_expansion(*input)),
{
    match expand(input) {
        Ok(_) => None,
        Err(e) => Some(e),
    }
}

/// The derive of `ThemeBuilder`: the implementation for `input` as Rust code.
/// The item has to be without fault, which [`fault`] tells.
pub fn derive_theme_builder(input: &DeriveInput) -> (code: String)
    requires
        builder_expansion(*input) is Ok,
    ensures
        builder_expansion(*input) == Ok::<Seq<char>, DeriveError>(code@),
{
    match expand(input) {
        Ok(code) => code,
        Err(_) => unreached(),
    }
}

} // verus!

//! What the derives of theme files ask of a field: the shape of its type and
//! the metadata of its `theme` attribute.

use crate::error::{fault_of, MetadataError};
use crate::syntax::{
    attribute_named, find_attribute_named, Attribute, Meta, PathArguments, Token, Type,
};
use crate::words::same_text;
use vstd::prelude::*;

verus! {

/// The metadata of a `theme` attribute.
#[derive(Debug, PartialEq, Eq)]
pub enum Metadata {
    /// `theme(style)`: the field is one style.
    Style,
    /// `theme(styles(a, b))`: the field is a struct of styles with these
    /// names.
    Styles(Vec<String>),
}

/// [`Metadata`] with names as sequences of characters.
pub ghost enum MetadataView {
    Style,
    Styles(Seq<Seq<char>>),
}

/// The characters of each name.
pub open spec fn texts(names: Seq<String>) -> Seq<Seq<char>> {
    names.map_values(|name: String| name@)
}

impl View for Metadata {
    type V = MetadataView;

    open spec fn view(&self) -> MetadataView {
        match self {
            Metadata::Style => MetadataView::Style,
            Metadata::Styles(names) => MetadataView::Styles(texts(names@)),
        }
    }
}

/// The view of optional metadata.
pub open spec fn metadata_view(meta: Option<Metadata>) -> Option<MetadataView> {
    match meta {
        Some(meta) => Some(meta@),
        None => None,
    }
}

/// Whether the type is `Option` with at least one argument in angle brackets:
/// only the first segment of the path counts.
pub open spec fn option_type(ty: Type) -> bool {
    match ty.path {
        Some(path) => path.segments@.len() > 0 && path.segments@[0].ident@ == "Option"@ && (
        match path.segments@[0].arguments {
            PathArguments::AngleBracketed(n) => n > 0,
            _ => false,
        }),
        None => false,
    }
}

/// The type's name, when the type is a single name without arguments.
pub open spec fn type_ident(ty: Type) -> Option<Seq<char>> {
    match ty.path {
        Some(path) => if !path.leading_colon && path.segments@.len() == 1
            && path.segments@[0].arguments == PathArguments::Bare {
            Some(path.segments@[0].ident@)
        } else {
            None
        },
        None => None,
    }
}

/// The text of the type's path, when the type is written as a path.
pub open spec fn type_path_text(ty: Type) -> Option<Seq<char>> {
    match ty.path {
        Some(path) => Some(path.text@),
        None => None,
    }
}

/// The names of the identifiers among the first `count` tokens, in order.
pub open spec fn ident_names(tokens: Seq<Token>, count: int) -> Seq<Seq<char>>
    decreases count,
{
    if count <= 0 {
        Seq::empty()
    } else {
        match tokens[count - 1] {
            Token::Ident(name) => ident_names(tokens, count - 1).push(name@),
            _ => ident_names(tokens, count - 1),
        }
    }
}

/// The metadata that a list of tokens stands for: `style`, or `styles` and a
/// group, of which the identifiers are the names. Nothing for an empty list;
/// `styles` without a group and any other first token are errors.
pub open spec fn tokens_metadata(tokens: Seq<Token>) -> Result<Option<MetadataView>, MetadataError> {
    if tokens.len() == 0 {
        Ok(None)
    } else {
        match tokens[0] {
            Token::Ident(word) => if word@ == "style"@ {
                Ok(Some(MetadataView::Style))
            } else if word@ == "styles"@ {
                if tokens.len() > 1 {
                    match tokens[1] {
                        Token::Group(_, names) => Ok(
                            Some(MetadataView::Styles(ident_names(names@, names@.len() as int))),
                        ),
                        _ => Err(MetadataError::MissingStyles),
                    }
                } else {
                    Err(MetadataError::MissingStyles)
                }
            } else {
                Err(MetadataError::UnexpectedMetadata)
            },
            _ => Err(MetadataError::UnexpectedMetadata),
        }
    }
}

/// The metadata of a `theme` attribute, which has to be a list.
pub open spec fn attribute_metadata(attr: Attribute) -> Result<Option<MetadataView>, MetadataError> {
    match attr.meta {
        Meta::List(tokens) => tokens_metadata(tokens@),
        _ => Err(MetadataError::NotAList),
    }
}

/// The metadata of the first `theme` attribute among `attrs`, nothing where
/// there is none.
pub open spec fn theme_metadata(attrs: Seq<Attribute>) -> Result<Option<MetadataView>, MetadataError> {
    match attribute_named(attrs, "theme"@) {
        Some(attr) => attribute_metadata(attr),
        None => Ok(None),
    }
}

/// Whether a field's type is an `Option`.
pub fn is_option_type(ty: &Type) -> (r: bool)
    ensures
        r == option_type(*ty),
{
    match &ty.path {
        Some(path) => {
            if path.segments.len() > 0 {
                let first = &path.segments[0];
                same_text(first.ident.as_str(), "Option") && match first.arguments {
                    PathArguments::AngleBracketed(n) => n > 0,
                    _ => false,
                }
            } else {
                false
            }
        },
        None => false,
    }
}

/// The name of a field's type, when the type is a single name.
pub fn get_type_identifier(ty: &Type) -> (r: Option<&String>)
    ensures
        match r {
            Some(name) => type_ident(*ty) == Some(name@),
            None => type_ident(*ty) is None,
        },
{
    match &ty.path {
        Some(path) => {
            if !path.leading_colon && path.segments.len() == 1 {
                let first = &path.segments[0];
                match first.arguments {
                    PathArguments::Bare => Some(&first.ident),
                    _ => None,
                }
            } else {
                None
            }
        },
        None => None,
    }
}

/// The text of a field's type, when the type is written as a path.
pub fn get_type_token_stream(ty: &Type) -> (r: Option<&String>)
    ensures
        match r {
            Some(text) => type_path_text(*ty) == Some(text@),
            None => type_path_text(*ty) is None,
        },
{
    match &ty.path {
        Some(path) => Some(&path.text),
        None => None,
    }
}

/// Finds the `theme` attribute.
pub fn find_theme_attribute(attrs: &Vec<Attribute>) -> (r: Option<&Attribute>)
    ensures
        match r {
            Some(attr) => attribute_named(attrs@, "theme"@) == Some(*attr),
            None => attribute_named(attrs@, "theme"@) is None,
        },
{
    find_attribute_named(attrs, "theme")
}

/// The names of the identifiers among `tokens`, in order.
pub fn collect_ident_names(tokens: &Vec<Token>) -> (names: Vec<String>)
    ensures
        texts(names@) == ident_names(tokens@, tokens@.len() as int),
{
    let mut names: Vec<String> = Vec::new();
    let mut i: usize = 0;
    assert(texts(names@) =~= ident_names(tokens@, 0));
    while i < tokens.len()
        invariant
            i <= tokens.len(),
            texts(names@) == ident_names(tokens@, i as int),
        decreases tokens.len() - i,
    {
        if let Some(name) = tokens[i].as_ident() {
            let ghost before = names@;
            names.push(name.clone());
            assert(texts(names@) =~= texts(before).push(name@));
        }
        i = i + 1;
    }
    names
}

/// The metadata of a `theme` attribute, or its fault.
fn read_metadata(attr: &Attribute) -> (r: Result<Option<Metadata>, MetadataError>)
    ensures
        match r {
            Ok(meta) => attribute_metadata(*attr) == Ok::<Option<MetadataView>, MetadataError>(
                metadata_view(meta),
            ),
            Err(e) => attribute_metadata(*attr) == Err::<Option<MetadataView>, MetadataError>(e),
        },
{
    let tokens = match &attr.meta {
        Meta::List(tokens) => tokens,
        _ => {
            return Err(MetadataError::NotAList);
        },
    };
    if tokens.len() == 0 {
        return Ok(None);
    }
    let word = match tokens[0].as_ident() {
        Some(word) => word,
        None => {
            return Err(MetadataError::UnexpectedMetadata);
        },
    };
    if same_text(word.as_str(), "style") {
        Ok(Some(Metadata::Style))
    } else if same_text(word.as_str(), "styles") {
        if tokens.len() > 1 {
            match &tokens[1] {
                Token::Group(_, names) => Ok(Some(Metadata::Styles(collect_ident_names(names)))),
                _ => Err(MetadataError::MissingStyles),
            }
        } else {
            Err(MetadataError::MissingStyles)
        }
    } else {
        Err(MetadataError::UnexpectedMetadata)
    }
}

/// Reads the metadata of the first `theme` attribute among `attrs`.
pub fn find_theme_metadata(attrs: &Vec<Attribute>) -> (r: Result<Option<Metadata>, MetadataError>)
    ensures
        match r {
            Ok(meta) => theme_metadata(attrs@) == Ok::<Option<MetadataView>, MetadataError>(
                metadata_view(meta),
            ),
            Err(e) => theme_metadata(attrs@) == Err::<Option<MetadataView>, MetadataError>(e),
        },
{
    match find_theme_attribute(attrs) {
        Some(attr) => read_metadata(attr),
        None => Ok(None),
    }
}

/// The fault for which a `theme` attribute has no metadata: it is no list,
/// its first word is none of the supported ones, or `styles` is not followed
/// by a group. `None` for an attribute without fault.
pub fn metadata_fault(attr: &Attribute) -> (fault: Option<MetadataError>)
    ensures
        fault == fault_of(attribute_metadata(*attr)),
{
    match read_metadata(attr) {
        Ok(_) => None,
        Err(e) => Some(e),
    }
}

/// Reads the metadata of a `theme` attribute, `None` for an empty list. The
/// attribute has to be without fault, which [`metadata_fault`] tells.
pub fn find_attribute_metadata(attr: &Attribute) -> (meta: Option<Metadata>)
    requires
        attribute_metadata(*attr) is Ok,
    ensures
        attribute_metadata(*attr) == Ok::<Option<MetadataView>, MetadataError>(
            metadata_view(meta),
        ),
{
    match read_metadata(attr) {
        Ok(meta) => meta,
        Err(_) => unreached(),
    }
}

} // verus!

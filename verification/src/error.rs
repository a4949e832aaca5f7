//! Why a derive gives no code.

use vstd::prelude::*;

verus! {

/// Why the metadata of a `theme` attribute cannot be read.
#[derive(Clone, Copy, Debug, PartialEq, Eq, Structural)]
pub enum MetadataError {
    /// The attribute is not of the form `theme(..)`.
    NotAList,
    /// The first word is none of the supported ones.
    UnexpectedMetadata,
    /// `styles` is not followed by a group of names.
    MissingStyles,
}

/// Why a `style` attribute cannot be read.
#[derive(Clone, Copy, Debug, PartialEq, Eq, Structural)]
pub enum StyleError {
    /// The attribute is not of the form `style(..)`.
    NotAList,
    /// An item of the list does not fit, or two items are not separated by a
    /// comma.
    Malformed,
    /// A colour is given as a string that is no name.
    InvalidColour,
}

/// Why a derive gives no code. A number is the position of the field that
/// the error is about, counted from zero.
#[derive(Clone, Copy, Debug, PartialEq, Eq, Structural)]
pub enum DeriveError {
    /// The derive is attached to an enum or a union.
    NotAStruct,
    /// The struct has no `builder` attribute.
    MissingBuilder,
    /// The struct's `builder` attribute does not name the type to build from.
    MissingContext,
    /// The struct's fields have no names.
    UnnamedFields,
    /// The struct has no fields.
    NoFields,
    /// The field's `builder` attribute holds no value.
    MissingValue(usize),
    /// The field's `style` attribute cannot be read.
    Style(usize, StyleError),
    /// The field's `theme` attribute cannot be read.
    Metadata(usize, MetadataError),
    /// The field's `theme` attribute asks for what the derive does not offer.
    UnsupportedMetadata(usize),
    /// The field's type is not written as a path.
    TypeNotPath(usize),
    /// The field's type is not a single name.
    TypeNotIdent(usize),
    /// The field's name, or the name of one of its styles, is a raw
    /// identifier, of which no longer name can be made.
    RawName(usize),
}

/// The error of a result, `None` for a success.
pub open spec fn fault_of<T, E>(result: Result<T, E>) -> Option<E> {
    match result {
        Ok(_) => None,
        Err(e) => Some(e),
    }
}

impl DeriveError {
    /// The position of the field that the error is about.
    pub open spec fn field_index(self) -> Option<usize> {
        match self {
            DeriveError::MissingValue(i) => Some(i),
            DeriveError::Style(i, _) => Some(i),
            DeriveError::Metadata(i, _) => Some(i),
            DeriveError::UnsupportedMetadata(i) => Some(i),
            DeriveError::TypeNotPath(i) => Some(i),
            DeriveError::TypeNotIdent(i) => Some(i),
            DeriveError::RawName(i) => Some(i),
            _ => None,
        }
    }

    /// The position of the field that the error is about, `None` for an
    /// error about the item as a whole.
    pub fn field(&self) -> (r: Option<usize>)
        ensures
            r == self.field_index(),
    {
        match self {
            DeriveError::MissingValue(i) => Some(*i),
            DeriveError::Style(i, _) => Some(*i),
            DeriveError::Metadata(i, _) => Some(*i),
            DeriveError::UnsupportedMetadata(i) => Some(*i),
            DeriveError::TypeNotPath(i) => Some(*i),
            DeriveError::TypeNotIdent(i) => Some(*i),
            DeriveError::RawName(i) => Some(*i),
            _ => None,
        }
    }
}

} // verus!

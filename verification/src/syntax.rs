//! What a derive reads of a struct definition, as plain data.
//!
//! The types follow the shape of a parsed `struct` item: a name, attributes,
//! and fields with their own attributes and types. Attribute arguments are
//! kept as token trees, because their grammar belongs to this library. A type
//! is kept as the text it was written with, together with the few facts about
//! its path that the derives ask for.
//!
//! Groups without delimiters have no counterpart here: whoever builds these
//! values from a compiler's token stream puts the content of such a group in
//! the group's place.

use crate::words::same_text;
use vstd::prelude::*;

verus! {

/// How a group of tokens is enclosed.
#[derive(Clone, Copy, Debug, PartialEq, Eq, Structural)]
pub enum Delimiter {
    Parenthesis,
    Brace,
    Bracket,
}

/// Whether a punctuation character is glued to the token that follows it.
#[derive(Clone, Copy, Debug, PartialEq, Eq, Structural)]
pub enum Spacing {
    Alone,
    Joint,
}

/// One token tree.
#[derive(Debug, PartialEq, Eq)]
pub enum Token {
    /// An identifier or a keyword, by its spelling.
    Ident(String),
    /// One punctuation character.
    Punct(char, Spacing),
    /// A literal, as it is written in the source (a string with its quotes).
    Literal(String),
    /// A delimited sequence of token trees.
    Group(Delimiter, Vec<Token>),
}

/// The arguments of an attribute.
#[derive(Debug, PartialEq, Eq)]
pub enum Meta {
    /// A bare path, as in `#[theme]`.
    Path,
    /// A path and delimited tokens, as in `#[theme(style)]`.
    List(Vec<Token>),
    /// A path and a value, as in `#[theme = "style"]`.
    NameValue,
}

/// An attribute on a struct or on a field.
#[derive(Debug, PartialEq, Eq)]
pub struct Attribute {
    /// The attribute's path when it is a single identifier, `None` for any
    /// longer path.
    pub ident: Option<String>,
    pub meta: Meta,
}

/// What follows the name in one segment of a type path.
#[derive(Clone, Copy, Debug, PartialEq, Eq, Structural)]
pub enum PathArguments {
    /// Nothing, as in `Style`.
    Bare,
    /// Arguments in angle brackets, with their number: `Option<T>` has one.
    AngleBracketed(usize),
    /// Arguments in parentheses, as in `Fn(u8) -> u8`.
    Parenthesized,
}

/// One segment of a type path.
#[derive(Debug, PartialEq, Eq)]
pub struct PathSegment {
    pub ident: String,
    pub arguments: PathArguments,
}

/// The path of a type that is written as one.
#[derive(Debug, PartialEq, Eq)]
pub struct TypePath {
    /// The path as text.
    pub text: String,
    /// Whether the path starts with `::`.
    pub leading_colon: bool,
    pub segments: Vec<PathSegment>,
}

/// The type of a field.
#[derive(Debug, PartialEq, Eq)]
pub struct Type {
    /// The whole type as text.
    pub text: String,
    /// The path, when the type is written as a path.
    pub path: Option<TypePath>,
}

/// A named field of a struct.
#[derive(Debug, PartialEq, Eq)]
pub struct Field {
    pub ident: String,
    pub ty: Type,
    pub attrs: Vec<Attribute>,
}

/// The fields of a struct.
#[derive(Debug, PartialEq, Eq)]
pub enum Fields {
    Named(Vec<Field>),
    Unnamed,
    Unit,
}

/// The kind of item that a derive is attached to.
#[derive(Debug, PartialEq, Eq)]
pub enum Data {
    Struct(Fields),
    Enum,
    Union,
}

/// The item that a derive is attached to.
#[derive(Debug, PartialEq, Eq)]
pub struct DeriveInput {
    pub ident: String,
    pub attrs: Vec<Attribute>,
    pub data: Data,
}

impl Token {
    /// The spelling of an identifier token.
    pub open spec fn ident_text(self) -> Option<Seq<char>> {
        match self {
            Token::Ident(name) => Some(name@),
            _ => None,
        }
    }

    /// Whether this is the punctuation character `c`, glued or not.
    pub open spec fn is_punct(self, c: char) -> bool {
        match self {
            Token::Punct(d, _) => d == c,
            _ => false,
        }
    }

    /// The identifier's spelling, if this is an identifier.
    pub fn as_ident(&self) -> (r: Option<&String>)
        ensures
            match r {
                Some(name) => self.ident_text() == Some(name@),
                None => self.ident_text() is None,
            },
    {
        match self {
            Token::Ident(name) => Some(name),
            _ => None,
        }
    }

    /// Whether this is the punctuation character `c`.
    pub fn punct_is(&self, c: char) -> (r: bool)
        ensures
            r == self.is_punct(c),
    {
        match self {
            Token::Punct(d, _) => *d == c,
            _ => false,
        }
    }
}

impl Attribute {
    /// Whether the attribute's path is the single identifier `name`.
    pub open spec fn has_ident(self, name: Seq<char>) -> bool {
        match self.ident {
            Some(ident) => ident@ == name,
            None => false,
        }
    }

    /// The tokens of a list attribute, nothing for the other forms.
    pub open spec fn tokens(self) -> Seq<Token> {
        match self.meta {
            Meta::List(tokens) => tokens@,
            _ => Seq::empty(),
        }
    }
}

/// The position of the first attribute from `from` on whose path is the
/// single identifier `name`.
pub open spec fn first_with_ident(attrs: Seq<Attribute>, name: Seq<char>, from: int) -> Option<int>
    decreases attrs.len() - from,
{
    if from < 0 || from >= attrs.len() {
        None
    } else if attrs[from].has_ident(name) {
        Some(from)
    } else {
        first_with_ident(attrs, name, from + 1)
    }
}

/// The first attribute whose path is the single identifier `name`.
pub open spec fn attribute_named(attrs: Seq<Attribute>, name: Seq<char>) -> Option<Attribute> {
    match first_with_ident(attrs, name, 0) {
        Some(i) => Some(attrs[i]),
        None => None,
    }
}

/// What [`first_with_ident`] finds is the first attribute of that name:
/// it has the name, and no attribute before it has.
pub proof fn lemma_first_with_ident(attrs: Seq<Attribute>, name: Seq<char>, from: int)
    requires
        0 <= from,
    ensures
        match first_with_ident(attrs, name, from) {
            Some(i) => from <= i < attrs.len() && attrs[i].has_ident(name) && forall|j: int|
                from <= j < i ==> !attrs[j].has_ident(name),
            None => forall|j: int| from <= j < attrs.len() ==> !attrs[j].has_ident(name),
        },
    decreases attrs.len() - from,
{
    if from < attrs.len() && !attrs[from].has_ident(name) {
        lemma_first_with_ident(attrs, name, from + 1);
    }
}

/// Finds the first attribute whose path is the single identifier `name`.
pub fn find_attribute_named<'a>(attrs: &'a Vec<Attribute>, name: &str) -> (r: Option<&'a Attribute>)
    ensures
        match r {
            Some(attr) => attribute_named(attrs@, name@) == Some(*attr),
            None => attribute_named(attrs@, name@) is None,
        },
{
    let mut i: usize = 0;
    while i < attrs.len()
        invariant
            i <= attrs.len(),
            first_with_ident(attrs@, name@, 0) == first_with_ident(attrs@, name@, i as int),
        decreases attrs.len() - i,
    {
        let attr = &attrs[i];
        let found = match &attr.ident {
            Some(ident) => same_text(ident.as_str(), name),
            None => false,
        };
        if found {
            return Some(attr);
        }
        i = i + 1;
    }
    None
}

} // verus!

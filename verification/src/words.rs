//! Questions about single words that only a Rust parser can answer, and the
//! comparison of names.

use syn::ext::IdentExt;
use vstd::prelude::*;
use vstd::string::*;

verus! {

/// Whether `name` stands for an identifier that is no keyword of Rust.
pub uninterp spec fn plain_ident(name: Seq<char>) -> bool;

/// Whether `text` stands for exactly one identifier, keywords included.
pub uninterp spec fn any_ident(text: Seq<char>) -> bool;

/// The string that the literal written as `repr` denotes, if `repr` is a
/// string literal.
pub uninterp spec fn string_literal(repr: Seq<char>) -> Option<Seq<char>>;

/// The characters of an optional name.
pub open spec fn name_view(name: Option<String>) -> Option<Seq<char>> {
    match name {
        Some(name) => Some(name@),
        None => None,
    }
}

/// A name without the mark `r#` of a raw identifier: the form in which a name
/// becomes part of a longer name.
pub open spec fn unraw(name: Seq<char>) -> Seq<char> {
    if is_raw(name) {
        name.skip(2)
    } else {
        name
    }
}

/// Whether a name starts with the mark `r#` of a raw identifier.
pub open spec fn is_raw(name: Seq<char>) -> bool {
    name.len() >= 2 && name[0] == 'r' && name[1] == '#'
}

/// Whether `c` is a character that Rust reads as white space between tokens:
/// a character with the property `White_Space`, or one of the two marks of
/// direction.
pub open spec fn is_space(c: char) -> bool {
    ||| '\u{9}' <= c <= '\u{d}'
    ||| c == ' '
    ||| c == '\u{85}'
    ||| c == '\u{a0}'
    ||| c == '\u{1680}'
    ||| '\u{2000}' <= c <= '\u{200a}'
    ||| c == '\u{200e}'
    ||| c == '\u{200f}'
    ||| c == '\u{2028}'
    ||| c == '\u{2029}'
    ||| c == '\u{202f}'
    ||| c == '\u{205f}'
    ||| c == '\u{3000}'
}

/// Whether `text` holds neither white space nor a slash, so that nothing in
/// it is skipped when it is read as tokens: no space and no comment.
pub open spec fn is_bare(text: Seq<char>) -> bool {
    forall|i: int| 0 <= i < text.len() ==> !is_space(#[trigger] text[i]) && text[i] != '/'
}

/// `==` of `str`: two string slices are equal exactly when they hold the same
/// characters in the same order.
#[verifier::external_body]
pub(crate) fn same_text(a: &str, b: &str) -> (r: bool)
    ensures
        r == (a@ == b@),
{
    a == b
}

/// `syn::parse_str::<syn::Ident>`: whether syn reads the text as one
/// identifier that it does not count among Rust's keywords. What it answers
/// for a given text is named by [`plain_ident`].
#[verifier::external_body]
pub(crate) fn is_plain_ident(name: &str) -> (r: bool)
    ensures
        r == plain_ident(name@),
{
    syn::parse_str::<syn::Ident>(name).is_ok()
}

/// `syn::Ident::parse_any` applied to the whole text: whether syn reads the
/// text as one identifier, be it a keyword or not. What it answers for a
/// given text is named by [`any_ident`].
#[verifier::external_body]
pub(crate) fn is_any_ident(text: &str) -> (r: bool)
    ensures
        r == any_ident(text@),
{
    syn::parse::Parser::parse_str(syn::Ident::parse_any, text).is_ok()
}

/// `syn::parse_str::<syn::LitStr>` and `LitStr::value`: the string that a
/// string literal denotes, with its escapes resolved; nothing for any other
/// text. What it gives for a given text is named by [`string_literal`].
#[verifier::external_body]
pub(crate) fn string_literal_value(repr: &str) -> (r: Option<String>)
    ensures
        match r {
            Some(value) => string_literal(repr@) == Some(value@),
            None => string_literal(repr@) is None,
        },
{
    match syn::parse_str::<syn::LitStr>(repr) {
        Ok(literal) => Some(literal.value()),
        Err(_) => None,
    }
}

/// Whether `c` is white space between tokens.
pub fn space(c: char) -> (r: bool)
    ensures
        r == is_space(c),
{
    ('\u{9}' <= c && c <= '\u{d}') || c == ' ' || c == '\u{85}' || c == '\u{a0}' || c == '\u{1680}'
        || ('\u{2000}' <= c && c <= '\u{200a}') || c == '\u{200e}' || c == '\u{200f}' || c
        == '\u{2028}' || c == '\u{2029}' || c == '\u{202f}' || c == '\u{205f}' || c == '\u{3000}'
}

/// Whether `text` holds neither white space nor a slash.
pub fn bare(text: &str) -> (r: bool)
    ensures
        r == is_bare(text@),
{
    let len = text.unicode_len();
    let mut i: usize = 0;
    while i < len
        invariant
            i <= len,
            len == text@.len(),
            forall|j: int| 0 <= j < i ==> !is_space(#[trigger] text@[j]) && text@[j] != '/',
        decreases len - i,
    {
        let c = text.get_char(i);
        if space(c) || c == '/' {
            return false;
        }
        i = i + 1;
    }
    true
}

/// Whether `name` starts with the mark of a raw identifier.
pub fn has_raw_mark(name: &str) -> (r: bool)
    ensures
        r == is_raw(name@),
{
    name.unicode_len() >= 2 && name.get_char(0) == 'r' && name.get_char(1) == '#'
}

/// `name` without the mark of a raw identifier.
pub fn unraw_name(name: &str) -> (r: &str)
    ensures
        r@ == unraw(name@),
{
    if has_raw_mark(name) {
        name.substring_char(2, name.unicode_len())
    } else {
        name
    }
}

} // verus!

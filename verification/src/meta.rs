//! The common frame of attribute arguments: a list of items, separated by
//! commas, each of which starts with a path.
//!
//! A list is read from left to right. An item that does not fit, or anything
//! but a comma between two items, makes the whole list malformed: nothing is
//! taken from such a list. Each derive says what its items do, and these
//! functions say where an item's path ends, what the path is called, and what
//! follows an item.

use crate::syntax::{Attribute, Meta, Spacing, Token};
use crate::words::{is_plain_ident, name_view, plain_ident, same_text};
use vstd::prelude::*;

verus! {

/// Whether the tokens at `pos` are the path separator `::`, that is a glued
/// colon and a second colon.
pub open spec fn path_sep_at(tokens: Seq<Token>, pos: int) -> bool {
    &&& 0 <= pos
    &&& pos + 1 < tokens.len()
    &&& tokens[pos] == Token::Punct(':', Spacing::Joint)
    &&& tokens[pos + 1].is_punct(':')
}

/// Whether the token at `pos` is an identifier or a keyword.
pub open spec fn ident_at(tokens: Seq<Token>, pos: int) -> bool {
    0 <= pos < tokens.len() && tokens[pos] is Ident
}

/// Whether the token at `pos` is the punctuation character `c`.
pub open spec fn punct_at(tokens: Seq<Token>, pos: int, c: char) -> bool {
    0 <= pos < tokens.len() && tokens[pos].is_punct(c)
}

/// The number of tokens that continue a path after one of its segments: each
/// further segment is `::` and a name. `None` where `::` is not followed by a
/// name.
pub open spec fn path_tail_len(tokens: Seq<Token>, pos: int) -> Option<nat>
    decreases tokens.len() - pos,
{
    if path_sep_at(tokens, pos) {
        if ident_at(tokens, pos + 2) {
            match path_tail_len(tokens, pos + 3) {
                Some(n) => Some(n + 3),
                None => None,
            }
        } else {
            None
        }
    } else {
        Some(0)
    }
}

/// The number of tokens of the path that starts at `pos`: an optional leading
/// `::`, a name, and further segments. `None` where no path starts.
pub open spec fn path_len(tokens: Seq<Token>, pos: int) -> Option<nat> {
    let lead: nat = if path_sep_at(tokens, pos) {
        2
    } else {
        0
    };
    if pos >= 0 && ident_at(tokens, pos + lead) {
        match path_tail_len(tokens, pos + lead + 1) {
            Some(n) => Some(lead + 1 + n),
            None => None,
        }
    } else {
        None
    }
}

/// The name of the path that starts at `pos`, when the path is a single name
/// without a leading `::`.
pub open spec fn path_ident(tokens: Seq<Token>, pos: int) -> Option<Seq<char>> {
    if path_len(tokens, pos) == Some(1nat) {
        tokens[pos].ident_text()
    } else {
        None
    }
}

/// What follows an item of a list.
pub ghost enum Follow {
    /// A comma and a further item, which starts at this position.
    Next(int),
    /// Nothing, or a last comma: the list ends.
    End,
    /// Anything else: the list is malformed.
    Fault,
}

/// What follows the item that ends before `pos`.
pub open spec fn after_item(tokens: Seq<Token>, pos: int) -> Follow {
    if pos == tokens.len() {
        Follow::End
    } else if punct_at(tokens, pos, ',') {
        if pos + 1 == tokens.len() {
            Follow::End
        } else {
            Follow::Next(pos + 1)
        }
    } else {
        Follow::Fault
    }
}

/// The identifier that is assigned at `pos`: the two tokens `=` and a name
/// that is no keyword.
pub open spec fn assigned_ident(tokens: Seq<Token>, pos: int) -> Option<Seq<char>> {
    if punct_at(tokens, pos, '=') && ident_at(tokens, pos + 1) && plain_ident(
        tokens[pos + 1].ident_text()->0,
    ) {
        tokens[pos + 1].ident_text()
    } else {
        None
    }
}

/// What one item of a list of `key = name` items does: the name that it
/// assigns and the position behind it. `None` for an item with another key or
/// without a name.
pub open spec fn keyed_item(tokens: Seq<Token>, key: Seq<char>, pos: int) -> Option<
    (Seq<char>, int),
> {
    match path_len(tokens, pos) {
        Some(n) => if path_ident(tokens, pos) == Some(key) {
            match assigned_ident(tokens, pos + n) {
                Some(name) => Some((name, pos + n + 2)),
                None => None,
            }
        } else {
            None
        },
        None => None,
    }
}

/// The name that a list of `key = name` items assigns when it is read from
/// `pos` on: the name of its last item. `None` for a list with an item that
/// does not fit, or with anything but a comma between two items.
pub open spec fn keyed_ident_from(tokens: Seq<Token>, key: Seq<char>, pos: int) -> Option<Seq<char>>
    decreases tokens.len() - pos,
{
    match keyed_item(tokens, key, pos) {
        None => None,
        Some((name, end)) => match after_item(tokens, end) {
            Follow::Next(next) => keyed_ident_from(tokens, key, next),
            Follow::End => Some(name),
            Follow::Fault => None,
        },
    }
}

/// The name that the attribute assigns to `key`, as in
/// `builder(context = Name)`. `None` for an attribute that is no list or
/// holds no item, and for a malformed list.
pub open spec fn keyed_ident(attr: Attribute, key: Seq<char>) -> Option<Seq<char>> {
    keyed_ident_from(attr.tokens(), key, 0)
}

/// A path's tail never ends behind the tokens.
pub proof fn lemma_path_tail_in_bounds(tokens: Seq<Token>, pos: int)
    requires
        0 <= pos <= tokens.len(),
    ensures
        path_tail_len(tokens, pos) matches Some(n) ==> pos + n <= tokens.len(),
    decreases tokens.len() - pos,
{
    if path_sep_at(tokens, pos) && ident_at(tokens, pos + 2) {
        lemma_path_tail_in_bounds(tokens, pos + 3);
    }
}

/// A path holds at least one token and ends within the tokens.
pub proof fn lemma_path_in_bounds(tokens: Seq<Token>, pos: int)
    ensures
        path_len(tokens, pos) matches Some(n) ==> 0 <= pos && 1 <= n && pos + n <= tokens.len(),
{
    if path_len(tokens, pos) is Some {
        let lead: nat = if path_sep_at(tokens, pos) {
            2
        } else {
            0
        };
        lemma_path_tail_in_bounds(tokens, pos + lead + 1);
    }
}

/// The path of an item.
pub struct MetaPath<'a> {
    /// The path's name, when it is a single name without a leading `::`.
    pub ident: Option<&'a String>,
    /// The position behind the path's last token.
    pub end: usize,
}

fn is_path_sep(tokens: &Vec<Token>, pos: usize) -> (r: bool)
    ensures
        r == path_sep_at(tokens@, pos as int),
{
    if pos < tokens.len() && tokens.len() - pos > 1 {
        match &tokens[pos] {
            Token::Punct(c, Spacing::Joint) => *c == ':' && tokens[pos + 1].punct_is(':'),
            _ => false,
        }
    } else {
        false
    }
}

fn is_ident(tokens: &Vec<Token>, pos: usize) -> (r: bool)
    ensures
        r == ident_at(tokens@, pos as int),
{
    pos < tokens.len() && tokens[pos].as_ident().is_some()
}

/// Reads the path that starts at `pos`.
pub fn meta_path<'a>(tokens: &'a Vec<Token>, pos: usize) -> (r: Option<MetaPath<'a>>)
    ensures
        match r {
            Some(path) => {
                &&& path_len(tokens@, pos as int) == Some((path.end - pos) as nat)
                &&& pos < path.end <= tokens.len()
                &&& match path.ident {
                    Some(name) => path_ident(tokens@, pos as int) == Some(name@),
                    None => path_ident(tokens@, pos as int) is None,
                }
            },
            None => path_len(tokens@, pos as int) is None,
        },
{
    let len = tokens.len();
    let leading = is_path_sep(tokens, pos);
    let first: usize = if leading {
        pos + 2
    } else {
        pos
    };
    if !is_ident(tokens, first) {
        return None;
    }
    let mut end: usize = first + 1;
    let mut single = !leading;
    while is_path_sep(tokens, end)
        invariant
            first < end <= len,
            len == tokens.len(),
            path_tail_len(tokens@, first + 1) == match path_tail_len(tokens@, end as int) {
                Some(n) => Some((n + (end - first - 1)) as nat),
                None => None,
            },
            leading == path_sep_at(tokens@, pos as int),
            first == if leading { pos + 2 } else { pos as int },
            ident_at(tokens@, first as int),
            single ==> !leading && end == first + 1,
            !single ==> leading || end > first + 1,
        decreases len - end,
    {
        if !is_ident(tokens, end + 2) {
            return None;
        }
        end = end + 3;
        single = false;
    }
    let ident = if single {
        tokens[first].as_ident()
    } else {
        None
    };
    Some(MetaPath { ident, end })
}

/// What follows an item of a list.
#[derive(Clone, Copy, Debug, PartialEq, Eq, Structural)]
pub enum AfterItem {
    /// A comma and a further item, which starts at this position.
    Next(usize),
    /// Nothing, or a last comma: the list ends.
    End,
    /// Anything else: the list is malformed.
    Fault,
}

impl View for AfterItem {
    type V = Follow;

    open spec fn view(&self) -> Follow {
        match self {
            AfterItem::Next(next) => Follow::Next(*next as int),
            AfterItem::End => Follow::End,
            AfterItem::Fault => Follow::Fault,
        }
    }
}

/// Reads what follows the item that ends before `pos`, a position within the
/// tokens or at their end.
pub fn item_end(tokens: &Vec<Token>, pos: usize) -> (r: AfterItem)
    ensures
        r@ == after_item(tokens@, pos as int),
        r matches AfterItem::Next(next) ==> next == pos + 1 && next < tokens.len(),
{
    if pos == tokens.len() {
        AfterItem::End
    } else if pos < tokens.len() && tokens[pos].punct_is(',') {
        if tokens.len() - pos == 1 {
            AfterItem::End
        } else {
            AfterItem::Next(pos + 1)
        }
    } else {
        AfterItem::Fault
    }
}

/// The name in `token` if it is an identifier and `plain` says that it is no
/// keyword.
pub fn ident_if_plain<'a>(token: &'a Token, plain: bool) -> (r: Option<&'a String>)
    ensures
        match r {
            Some(name) => plain && token.ident_text() == Some(name@),
            None => !plain || token.ident_text() is None,
        },
{
    if plain {
        token.as_ident()
    } else {
        None
    }
}

/// Reads the identifier that is assigned at `pos`.
pub fn assigned_ident_at<'a>(tokens: &'a Vec<Token>, pos: usize) -> (r: Option<&'a String>)
    ensures
        match r {
            Some(name) => assigned_ident(tokens@, pos as int) == Some(name@) && pos + 2
                <= tokens.len(),
            None => assigned_ident(tokens@, pos as int) is None,
        },
{
    if pos < tokens.len() && tokens[pos].punct_is('=') && is_ident(tokens, pos + 1) {
        let token = &tokens[pos + 1];
        match token.as_ident() {
            Some(name) => ident_if_plain(token, is_plain_ident(name.as_str())),
            None => None,
        }
    } else {
        None
    }
}

/// Reads the name that the attribute assigns to `key`.
pub fn read_keyed_ident(attr: &Attribute, key: &str) -> (r: Option<String>)
    ensures
        name_view(r) == keyed_ident(*attr, key@),
{
    let tokens = match &attr.meta {
        Meta::List(tokens) => tokens,
        _ => {
            return None;
        },
    };
    let mut pos: usize = 0;
    loop
        invariant
            keyed_ident(*attr, key@) == keyed_ident_from(tokens@, key@, pos as int),
        decreases tokens.len() - pos,
    {
        let path = match meta_path(tokens, pos) {
            Some(path) => path,
            None => {
                return None;
            },
        };
        let fits = match path.ident {
            Some(name) => same_text(name.as_str(), key),
            None => false,
        };
        if !fits {
            return None;
        }
        let name = match assigned_ident_at(tokens, path.end) {
            Some(name) => name,
            None => {
                return None;
            },
        };
        match item_end(tokens, path.end + 2) {
            AfterItem::Next(next) => {
                pos = next;
            },
            AfterItem::End => {
                return Some(name.clone());
            },
            AfterItem::Fault => {
                return None;
            },
        }
    }
}

} // verus!

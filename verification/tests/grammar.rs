use ratatheme::builder::{
    parse_stream_to_token_stream, process_builder_field_attribute,
    process_builder_struct_attribute, process_style_attribute, value_word_of,
};
use ratatheme::colors::{
    colour_in_group, colour_of_name, colour_of_string, process_builder_attribute, ColourWord,
};
use ratatheme::error::StyleError;
use ratatheme::meta::{
    assigned_ident_at, ident_if_plain, item_end, meta_path, read_keyed_ident, AfterItem,
};
use ratatheme::style_values::{takes_colour, StyleValues};
use ratatheme::syntax::{find_attribute_named, Attribute, Delimiter, Meta, Spacing, Token};
use ratatheme::words::{bare, has_raw_mark, space, unraw_name};

fn ident(name: &str) -> Token {
    Token::Ident(name.to_string())
}

fn punct(c: char) -> Token {
    Token::Punct(c, Spacing::Alone)
}

fn joint(c: char) -> Token {
    Token::Punct(c, Spacing::Joint)
}

fn literal(repr: &str) -> Token {
    Token::Literal(repr.to_string())
}

fn parens(tokens: Vec<Token>) -> Token {
    Token::Group(Delimiter::Parenthesis, tokens)
}

fn list(name: &str, tokens: Vec<Token>) -> Attribute {
    Attribute { ident: Some(name.to_string()), meta: Meta::List(tokens) }
}

fn no_values() -> StyleValues {
    StyleValues::new()
}

#[test]
fn new_values_ask_for_nothing() {
    assert_eq!(
        StyleValues::new(),
        StyleValues {
            foreground: None,
            background: None,
            bold: None,
            dim: None,
            italic: None,
            underlined: None,
            slow_blink: None,
            rapid_blink: None,
            reversed: None,
            hidden: None,
            crossed_out: None,
        }
    );
}

#[test]
fn a_path_is_a_name_or_names_between_double_colons() {
    let tokens = vec![ident("a"), punct(','), joint(':'), punct(':'), ident("b"), joint(':'), joint(':'), ident("c")];
    let path = meta_path(&tokens, 0).unwrap();
    assert_eq!((path.ident.map(String::as_str), path.end), (Some("a"), 1));
    let path = meta_path(&tokens, 2).unwrap();
    assert_eq!((path.ident, path.end), (None, 8));
    let path = meta_path(&tokens, 4).unwrap();
    assert_eq!((path.ident, path.end), (None, 8));
    let path = meta_path(&tokens, 7).unwrap();
    assert_eq!((path.ident.map(String::as_str), path.end), (Some("c"), 8));
    assert!(meta_path(&tokens, 1).is_none());
    assert!(meta_path(&tokens, 3).is_none());
    let path = meta_path(&tokens, 5).unwrap();
    assert_eq!((path.ident, path.end), (None, 8));
    assert!(meta_path(&tokens, 6).is_none());
    assert!(meta_path(&tokens, 8).is_none());
    assert!(meta_path(&tokens, 9).is_none());
    assert!(meta_path(&tokens, usize::MAX).is_none());
}

#[test]
fn a_path_needs_a_name_behind_each_double_colon() {
    assert!(meta_path(&vec![ident("a"), joint(':'), punct(':')], 0).is_none());
    assert!(meta_path(&vec![ident("a"), joint(':'), punct(':'), punct('=')], 0).is_none());
    assert!(meta_path(&vec![joint(':'), punct(':')], 0).is_none());
    assert!(meta_path(&vec![literal("1")], 0).is_none());
    assert!(meta_path(&vec![parens(vec![ident("a")])], 0).is_none());
}

#[test]
fn two_colons_apart_are_no_double_colon() {
    let tokens = vec![ident("a"), punct(':'), punct(':'), ident("b")];
    let path = meta_path(&tokens, 0).unwrap();
    assert_eq!((path.ident.map(String::as_str), path.end), (Some("a"), 1));
    assert!(meta_path(&tokens, 1).is_none());
    let tokens = vec![ident("a"), joint(':'), joint('='), ident("b")];
    assert_eq!(meta_path(&tokens, 0).unwrap().end, 1);
}

#[test]
fn a_keyword_may_be_a_path() {
    let tokens = vec![ident("type"), punct(',')];
    let path = meta_path(&tokens, 0).unwrap();
    assert_eq!((path.ident.map(String::as_str), path.end), (Some("type"), 1));
}

#[test]
fn a_comma_stands_between_two_items() {
    let tokens = vec![ident("a"), punct(','), ident("b"), joint(','), ident("c"), punct(',')];
    assert_eq!(item_end(&tokens, 1), AfterItem::Next(2));
    assert_eq!(item_end(&tokens, 3), AfterItem::Next(4));
    assert_eq!(item_end(&tokens, 5), AfterItem::End);
    assert_eq!(item_end(&tokens, 6), AfterItem::End);
    assert_eq!(item_end(&tokens, 0), AfterItem::Fault);
    assert_eq!(item_end(&tokens, 2), AfterItem::Fault);
    assert_eq!(item_end(&tokens, 7), AfterItem::Fault);
    assert_eq!(item_end(&tokens, usize::MAX), AfterItem::Fault);
    assert_eq!(item_end(&vec![], 0), AfterItem::End);
    assert_eq!(item_end(&vec![punct(';')], 0), AfterItem::Fault);
    assert_eq!(item_end(&vec![parens(vec![])], 0), AfterItem::Fault);
}

#[test]
fn an_assigned_identifier_is_no_keyword() {
    let tokens = vec![punct('='), ident("primary"), punct('='), ident("fn"), joint('='), punct('='), ident("x"), punct('=')];
    assert_eq!(assigned_ident_at(&tokens, 0).map(String::as_str), Some("primary"));
    assert_eq!(assigned_ident_at(&tokens, 2), None);
    assert_eq!(assigned_ident_at(&tokens, 4), None);
    assert_eq!(assigned_ident_at(&tokens, 5).map(String::as_str), Some("x"));
    assert_eq!(assigned_ident_at(&tokens, 1), None);
    assert_eq!(assigned_ident_at(&tokens, 7), None);
    assert_eq!(assigned_ident_at(&tokens, 8), None);
    assert_eq!(assigned_ident_at(&tokens, usize::MAX), None);
    for word in ["_", "self", "Self", "crate", "super", "async", "try", "yield", "true"] {
        assert_eq!(assigned_ident_at(&vec![punct('='), ident(word)], 0), None, "{word}");
    }
    for word in ["r#type", "default", "union", "_x", "été"] {
        assert!(assigned_ident_at(&vec![punct('='), ident(word)], 0).is_some(), "{word}");
    }
}

#[test]
fn a_name_counts_only_if_it_is_plain() {
    let name = ident("x");
    assert_eq!(ident_if_plain(&name, true).map(String::as_str), Some("x"));
    assert_eq!(ident_if_plain(&name, false), None);
    assert_eq!(ident_if_plain(&punct('x'), true), None);
    assert_eq!(ident_if_plain(&literal("x"), true), None);
}

#[test]
fn a_keyed_identifier_is_the_last_one_read() {
    let read = |tokens: Vec<Token>| read_keyed_ident(&list("builder", tokens), "context");
    assert_eq!(read(vec![ident("context"), punct('='), ident("A")]).as_deref(), Some("A"));
    assert_eq!(read(vec![ident("context"), punct('='), ident("A"), punct(',')]).as_deref(), Some("A"));
    assert_eq!(
        read(vec![ident("context"), punct('='), ident("A"), punct(','), ident("context"), punct('='), ident("B")]).as_deref(),
        Some("B")
    );
    assert_eq!(
        read(vec![ident("context"), joint('='), ident("A"), joint(','), ident("context"), punct('='), ident("B"), punct(',')]).as_deref(),
        Some("B")
    );
}

#[test]
fn a_malformed_list_of_keys_gives_no_identifier() {
    let read = |tokens: Vec<Token>| read_keyed_ident(&list("builder", tokens), "context");
    assert_eq!(read(vec![]), None);
    assert_eq!(read(vec![ident("context")]), None);
    assert_eq!(read(vec![ident("context"), punct('=')]), None);
    assert_eq!(read(vec![ident("context"), punct('='), ident("A"), ident("B")]), None);
    assert_eq!(read(vec![ident("context"), punct('='), ident("A"), punct(';')]), None);
    assert_eq!(read(vec![ident("context"), punct('='), ident("A"), punct(','), punct(',')]), None);
    assert_eq!(
        read(vec![ident("context"), punct('='), ident("A"), punct(','), ident("context"), punct('='), literal("1")]),
        None
    );
    assert_eq!(
        read(vec![ident("context"), punct('='), ident("A"), punct(','), ident("other"), punct('='), ident("B")]),
        None
    );
    assert_eq!(
        read(vec![ident("other"), punct('='), ident("A"), punct(','), ident("context"), punct('='), ident("B")]),
        None
    );
    assert_eq!(
        read(vec![joint(':'), punct(':'), ident("context"), punct('='), ident("A")]),
        None
    );
    assert_eq!(read(vec![ident("r#context"), punct('='), ident("A")]), None);
    assert_eq!(read(vec![ident("context"), punct('='), ident("type")]), None);
}

#[test]
fn a_keyed_identifier_needs_a_list() {
    let path = Attribute { ident: Some("builder".to_string()), meta: Meta::Path };
    let value = Attribute { ident: Some("builder".to_string()), meta: Meta::NameValue };
    assert_eq!(read_keyed_ident(&path, "context"), None);
    assert_eq!(read_keyed_ident(&value, "context"), None);
    assert_eq!(process_builder_struct_attribute(&path), None);
    assert_eq!(process_builder_attribute(&value), None);
}

#[test]
fn each_derive_has_its_own_key() {
    let context = list("builder", vec![ident("context"), punct('='), ident("A")]);
    let colors = list("builder", vec![ident("colors"), punct('='), ident("B")]);
    assert_eq!(process_builder_struct_attribute(&context).as_deref(), Some("A"));
    assert_eq!(process_builder_struct_attribute(&colors), None);
    assert_eq!(process_builder_attribute(&colors).as_deref(), Some("B"));
    assert_eq!(process_builder_attribute(&context), None);
}

#[test]
fn the_first_attribute_of_a_name_is_found() {
    let attrs = vec![
        Attribute { ident: None, meta: Meta::Path },
        Attribute { ident: Some("doc".to_string()), meta: Meta::NameValue },
        list("style", vec![ident("bold")]),
        list("style", vec![ident("dim")]),
    ];
    assert_eq!(find_attribute_named(&attrs, "style"), Some(&attrs[2]));
    assert_eq!(find_attribute_named(&attrs, "doc"), Some(&attrs[1]));
    assert_eq!(find_attribute_named(&attrs, "builder"), None);
    assert_eq!(find_attribute_named(&attrs, ""), None);
    assert_eq!(find_attribute_named(&vec![], "style"), None);
}

#[test]
fn a_style_list_sets_colours_and_flags() {
    let values = process_style_attribute(&list(
        "style",
        vec![
            ident("fg"), punct('='), ident("a"), punct(','),
            ident("background"), punct('='), ident("b"), punct(','),
            ident("foreground"), punct('='), ident("c"), punct(','),
            ident("shiny"), punct(','),
            ident("a"), joint(':'), punct(':'), ident("bold"), punct(','),
            ident("hidden"), punct(','),
            ident("reversed"), punct(','),
        ],
    ));
    assert_eq!(
        values,
        Ok(StyleValues {
            foreground: Some("c".to_string()),
            background: Some("b".to_string()),
            reversed: Some(true),
            hidden: Some(true),
            ..no_values()
        })
    );
    assert_eq!(process_style_attribute(&list("style", vec![])), Ok(no_values()));
    assert_eq!(
        process_style_attribute(&list("style", vec![ident("bold")])),
        Ok(StyleValues { bold: Some(true), ..no_values() })
    );
}

#[test]
fn a_style_list_with_an_item_that_does_not_fit_is_malformed() {
    let read = |tokens: Vec<Token>| process_style_attribute(&list("style", tokens));
    for tokens in [
        vec![ident("bold"), ident("dim")],
        vec![ident("bold"), punct(';'), ident("dim")],
        vec![ident("bold"), punct(','), punct(','), ident("dim")],
        vec![ident("bold"), punct(','), literal("1"), punct(','), ident("dim")],
        vec![ident("bold"), punct(','), ident("fg"), punct(','), ident("dim")],
        vec![ident("bold"), punct(','), ident("bg"), punct('='), punct(','), ident("dim")],
        vec![ident("bold"), punct(','), ident("bg"), punct('='), ident("fn")],
        vec![ident("bold"), parens(vec![]), punct(','), ident("dim")],
        vec![ident("bold"), punct(','), ident("fg"), punct('='), ident("a"), punct('.'), ident("b")],
        vec![punct(','), ident("bold")],
        vec![punct(',')],
        vec![ident("a"), joint(':'), punct(':')],
        vec![ident("fg"), joint(':'), punct(':'), ident("x"), punct('='), ident("y")],
    ] {
        assert_eq!(read(tokens), Err(StyleError::Malformed));
    }
}

#[test]
fn a_style_needs_a_list() {
    for meta in [Meta::Path, Meta::NameValue] {
        let attr = Attribute { ident: Some("style".to_string()), meta };
        assert_eq!(process_style_attribute(&attr), Err(StyleError::NotAList));
        assert_eq!(ratatheme::colors::process_style_attribute(&attr), Err(StyleError::NotAList));
    }
}

#[test]
fn colour_keys() {
    for key in ["fg", "foreground", "bg", "background"] {
        assert!(takes_colour(key));
    }
    for key in ["", "f", "fgg", "Fg", "bold", "colour"] {
        assert!(!takes_colour(key));
    }
}

#[test]
fn flags_and_colours_are_set_by_name() {
    let mut values = StyleValues::new();
    for (name, expected) in [
        ("bold", StyleValues { bold: Some(true), ..no_values() }),
        ("dim", StyleValues { dim: Some(true), ..no_values() }),
        ("italic", StyleValues { italic: Some(true), ..no_values() }),
        ("underlined", StyleValues { underlined: Some(true), ..no_values() }),
        ("slow_blink", StyleValues { slow_blink: Some(true), ..no_values() }),
        ("rapid_blink", StyleValues { rapid_blink: Some(true), ..no_values() }),
        ("reversed", StyleValues { reversed: Some(true), ..no_values() }),
        ("hidden", StyleValues { hidden: Some(true), ..no_values() }),
        ("crossed_out", StyleValues { crossed_out: Some(true), ..no_values() }),
        ("fg", no_values()),
        ("Bold", no_values()),
        ("", no_values()),
    ] {
        let mut one = StyleValues::new();
        one.set_flag(name);
        assert_eq!(one, expected, "{name}");
        values.set_flag(name);
    }
    values.set_colour("fg", "a");
    values.set_colour("bg", "b");
    values.set_colour("bold", "c");
    assert_eq!(
        values,
        StyleValues {
            foreground: Some("a".to_string()),
            background: Some("b".to_string()),
            bold: Some(true),
            dim: Some(true),
            italic: Some(true),
            underlined: Some(true),
            slow_blink: Some(true),
            rapid_blink: Some(true),
            reversed: Some(true),
            hidden: Some(true),
            crossed_out: Some(true),
        }
    );
    values.set_colour("foreground", "x");
    values.set_colour("background", "y");
    assert_eq!(values.foreground.as_deref(), Some("x"));
    assert_eq!(values.background.as_deref(), Some("y"));
}

#[test]
fn a_style_is_built_in_a_fixed_order() {
    let values = StyleValues {
        background: Some("b".to_string()),
        crossed_out: Some(true),
        dim: Some(false),
        ..no_values()
    };
    assert_eq!(
        values.constructor("base", "colors"),
        "base: ratatui::style::Style::default().bg(colors.b.clone().into())\
         .add_modifier(ratatui::style::Modifier::DIM)\
         .add_modifier(ratatui::style::Modifier::CROSSED_OUT)"
    );
    assert_eq!(no_values().constructor("x", "y"), "x: ratatui::style::Style::default()");
}

#[test]
fn a_value_is_made_of_names_and_dots() {
    let tokens = vec![ident("value"), punct('='), ident("footer"), punct('.'), ident("hide")];
    assert_eq!(parse_stream_to_token_stream(&tokens, 2).as_deref(), Some("footer . hide"));
    assert_eq!(parse_stream_to_token_stream(&tokens, 4).as_deref(), Some("hide"));
    assert_eq!(parse_stream_to_token_stream(&tokens, 5).as_deref(), Some(""));
    assert_eq!(parse_stream_to_token_stream(&tokens, 9).as_deref(), Some(""));
    assert_eq!(parse_stream_to_token_stream(&tokens, 1), None);
    assert_eq!(parse_stream_to_token_stream(&tokens, 0), None);
    let tokens = vec![joint('.'), punct('.'), ident("a"), ident("b")];
    assert_eq!(parse_stream_to_token_stream(&tokens, 0).as_deref(), Some(". . a b"));
    for other in [ident("self"), punct(','), literal("0"), parens(vec![])] {
        assert_eq!(parse_stream_to_token_stream(&vec![ident("a"), other], 0), None);
    }
}

#[test]
fn a_word_of_a_value() {
    assert_eq!(value_word_of(&ident("a"), true), Some("a"));
    assert_eq!(value_word_of(&ident("a"), false), None);
    assert_eq!(value_word_of(&punct('.'), false), Some("."));
    assert_eq!(value_word_of(&joint('.'), true), Some("."));
    assert_eq!(value_word_of(&punct(','), true), None);
    assert_eq!(value_word_of(&literal("a"), true), None);
    assert_eq!(value_word_of(&parens(vec![]), true), None);
}

#[test]
fn the_value_of_a_field() {
    let read = |tokens: Vec<Token>| process_builder_field_attribute(&list("builder", tokens));
    assert_eq!(read(vec![ident("value"), punct('='), ident("a")]).as_deref(), Some("a"));
    assert_eq!(read(vec![ident("value"), punct('=')]).as_deref(), Some(""));
    assert_eq!(read(vec![ident("value"), joint('='), punct('.')]).as_deref(), Some("."));
    assert_eq!(read(vec![ident("value")]), None);
    assert_eq!(read(vec![]), None);
    assert_eq!(read(vec![ident("context"), punct('='), ident("a")]), None);
    assert_eq!(read(vec![ident("value"), punct(':'), ident("a")]), None);
    assert_eq!(read(vec![ident("value"), joint(':'), punct(':'), ident("x"), punct('='), ident("a")]), None);
    assert_eq!(read(vec![ident("value"), punct('='), ident("a"), punct(',')]), None);
    let path = Attribute { ident: Some("builder".to_string()), meta: Meta::Path };
    assert_eq!(process_builder_field_attribute(&path), None);
}

#[test]
fn a_colour_in_parentheses() {
    let name = |name: &str| ColourWord::Name(name.to_string());
    assert_eq!(colour_in_group(&vec![ident("primary")]), name("primary"));
    assert_eq!(colour_in_group(&vec![ident("r#type")]), name("r#type"));
    assert_eq!(colour_in_group(&vec![ident("a"), ident("x")]), ColourWord::Missing);
    assert_eq!(colour_in_group(&vec![literal("\"a\""), punct(',')]), ColourWord::Missing);
    assert_eq!(colour_in_group(&vec![literal("\" a\"")]), ColourWord::NotAName);
    assert_eq!(colour_in_group(&vec![literal("\"a \"")]), ColourWord::NotAName);
    assert_eq!(colour_in_group(&vec![literal("\"a/**/\"")]), ColourWord::NotAName);
    assert_eq!(colour_in_group(&vec![literal("\"primary\"")]), name("primary"));
    assert_eq!(colour_in_group(&vec![literal("r#\"primary\"#")]), name("primary"));
    assert_eq!(colour_in_group(&vec![literal("\"\\x70rimary\"")]), name("primary"));
    assert_eq!(colour_in_group(&vec![literal("\"type\"")]), name("type"));
    assert_eq!(colour_in_group(&vec![literal("\"r#type\"")]), name("r#type"));
    assert_eq!(colour_in_group(&vec![literal("\"\"")]), ColourWord::NotAName);
    assert_eq!(colour_in_group(&vec![literal("\"a b\"")]), ColourWord::NotAName);
    assert_eq!(colour_in_group(&vec![literal("\"a.b\"")]), ColourWord::NotAName);
    assert_eq!(colour_in_group(&vec![literal("\"1\"")]), ColourWord::NotAName);
    assert_eq!(colour_in_group(&vec![literal("\"\\\"a\\\"\"")]), ColourWord::NotAName);
    assert_eq!(colour_in_group(&vec![]), ColourWord::Missing);
    assert_eq!(colour_in_group(&vec![ident("type")]), ColourWord::Missing);
    assert_eq!(colour_in_group(&vec![literal("1")]), ColourWord::Missing);
    assert_eq!(colour_in_group(&vec![literal("'a'")]), ColourWord::Missing);
    assert_eq!(colour_in_group(&vec![literal("b\"a\"")]), ColourWord::Missing);
    assert_eq!(colour_in_group(&vec![literal("primary")]), ColourWord::Missing);
    assert_eq!(colour_in_group(&vec![punct('-'), ident("a")]), ColourWord::Missing);
    assert_eq!(colour_in_group(&vec![parens(vec![ident("a")])]), ColourWord::Missing);
}

#[test]
fn a_colour_of_a_string_or_a_name() {
    assert_eq!(colour_of_string("a".to_string(), true), ColourWord::Name("a".to_string()));
    assert_eq!(colour_of_string("a".to_string(), false), ColourWord::NotAName);
    assert_eq!(colour_of_string(" a".to_string(), true), ColourWord::NotAName);
    assert_eq!(colour_of_string("a/*x*/".to_string(), true), ColourWord::NotAName);
    assert_eq!(colour_of_name(&"a".to_string(), true), ColourWord::Name("a".to_string()));
    assert_eq!(colour_of_name(&"a".to_string(), false), ColourWord::Missing);
}

#[test]
fn white_space_and_slashes() {
    for c in ['\t', '\n', '\u{b}', '\u{c}', '\r', ' ', '\u{85}', '\u{a0}', '\u{1680}', '\u{2000}',
        '\u{200a}', '\u{200e}', '\u{200f}', '\u{2028}', '\u{2029}', '\u{202f}', '\u{205f}', '\u{3000}']
    {
        assert!(space(c), "{c:?}");
        assert!(!bare(&format!("a{c}")), "{c:?}");
    }
    for c in ['\u{8}', '\u{e}', 'a', '_', '/', '\u{200b}', '\u{200d}', '\u{1fff}', '\u{3001}', 'é'] {
        assert!(!space(c), "{c:?}");
    }
    for c in '\0'..='\u{3100}' {
        assert_eq!(space(c), c.is_whitespace() || c == '\u{200e}' || c == '\u{200f}', "{c:?}");
    }
    assert!(bare(""));
    assert!(bare("primary"));
    assert!(bare("r#été_1"));
    assert!(!bare("a/b"));
    assert!(!bare("/"));
    assert!(!bare(" a"));
    assert!(!bare("a\u{3000}"));
}

#[test]
fn a_style_list_with_colours_in_parentheses() {
    let read =
        |tokens: Vec<Token>| ratatheme::colors::process_style_attribute(&list("style", tokens));
    let values = read(vec![
        ident("fg"), parens(vec![ident("a")]), punct(','),
        ident("bg"), parens(vec![literal("\"b\"")]), punct(','),
        ident("shade"), parens(vec![ident("c")]), punct(','),
        ident("a"), joint(':'), punct(':'), ident("b"), punct(','),
        ident("italic"), punct(','),
    ]);
    assert_eq!(
        values,
        Ok(StyleValues {
            foreground: Some("a".to_string()),
            background: Some("b".to_string()),
            italic: Some(true),
            ..no_values()
        })
    );
    assert_eq!(read(vec![]), Ok(no_values()));
    for tokens in [
        vec![ident("bold"), punct(','), ident("fg"), parens(vec![])],
        vec![ident("bold"), punct(','), ident("a"), joint(':'), punct(':'), ident("fg"), parens(vec![ident("x")])],
        vec![ident("bold"), punct(','), ident("fg"), Token::Group(Delimiter::Bracket, vec![ident("x")])],
        vec![ident("fg"), parens(vec![ident("a"), ident("b")])],
        vec![ident("fg"), parens(vec![ident("a")]), ident("bold")],
        vec![ident("fg"), parens(vec![]), punct(','), ident("bg"), parens(vec![literal("\"\"")])],
        vec![ident("fg"), parens(vec![literal("\"\""), ident("a")])],
    ] {
        assert_eq!(read(tokens), Err(StyleError::Malformed));
    }
    for tokens in [
        vec![ident("bold"), punct(','), ident("fg"), parens(vec![literal("\"\"")])],
        vec![ident("shade"), parens(vec![literal("\"a b\"")]), punct(','), ident("bold")],
        vec![ident("fg"), parens(vec![literal("\" a\"")])],
        vec![ident("fg"), parens(vec![literal("\"a//\"")])],
        vec![ident("fg"), parens(vec![literal("\"a\"")]), punct(','), ident("bg"), parens(vec![literal("\"1\"")]), ident("x")],
    ] {
        assert_eq!(read(tokens), Err(StyleError::InvalidColour));
    }
}

#[test]
fn raw_marks() {
    assert!(has_raw_mark("r#type"));
    assert!(has_raw_mark("r#"));
    assert!(!has_raw_mark("r"));
    assert!(!has_raw_mark(""));
    assert!(!has_raw_mark("R#type"));
    assert!(!has_raw_mark("xr#type"));
    assert!(!has_raw_mark("r_type"));
    assert_eq!(unraw_name("r#type"), "type");
    assert_eq!(unraw_name("r#été"), "été");
    assert_eq!(unraw_name("r#"), "");
    assert_eq!(unraw_name("type"), "type");
    assert_eq!(unraw_name("r#r#a"), "r#a");
    assert_eq!(unraw_name(""), "");
}

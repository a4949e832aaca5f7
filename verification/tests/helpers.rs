use ratatheme::error::{DeriveError, MetadataError};
use ratatheme::error::StyleError;
use ratatheme::helpers::{
    collect_ident_names, find_attribute_metadata, find_theme_attribute, find_theme_metadata,
    get_type_identifier, get_type_token_stream, is_option_type, metadata_fault, Metadata,
};
use ratatheme::style::Style;
use ratatheme::subtheme::subtheme_proxy_name;
use ratatheme::syntax::{
    Attribute, Delimiter, Field, Meta, PathArguments, PathSegment, Spacing, Token, Type, TypePath,
};
use ratatheme::theme::{
    find_attribute, find_metadata, generate_style_method, generate_styles_method, styles_fault,
};

fn ident(name: &str) -> Token {
    Token::Ident(name.to_string())
}

fn group(delimiter: Delimiter, tokens: Vec<Token>) -> Token {
    Token::Group(delimiter, tokens)
}

fn theme(tokens: Vec<Token>) -> Attribute {
    Attribute { ident: Some("theme".to_string()), meta: Meta::List(tokens) }
}

fn segment(name: &str, arguments: PathArguments) -> PathSegment {
    PathSegment { ident: name.to_string(), arguments }
}

fn path_type(text: &str, leading_colon: bool, segments: Vec<PathSegment>) -> Type {
    Type {
        text: text.to_string(),
        path: Some(TypePath { text: text.to_string(), leading_colon, segments }),
    }
}

fn other_type(text: &str) -> Type {
    Type { text: text.to_string(), path: None }
}

#[test]
fn an_option_has_arguments_in_angle_brackets() {
    let option = |arguments| path_type("Option", false, vec![segment("Option", arguments)]);
    assert!(is_option_type(&option(PathArguments::AngleBracketed(1))));
    assert!(is_option_type(&option(PathArguments::AngleBracketed(2))));
    assert!(!is_option_type(&option(PathArguments::AngleBracketed(0))));
    assert!(!is_option_type(&option(PathArguments::Bare)));
    assert!(!is_option_type(&option(PathArguments::Parenthesized)));
    assert!(!is_option_type(&other_type("Option<u8>")));
    assert!(!is_option_type(&path_type("", false, vec![])));
}

#[test]
fn an_option_is_known_by_its_first_segment() {
    let one = PathArguments::AngleBracketed(1);
    assert!(!is_option_type(&path_type("Vec<u8>", false, vec![segment("Vec", one)])));
    assert!(!is_option_type(&path_type(
        "std::option::Option<u8>",
        false,
        vec![
            segment("std", PathArguments::Bare),
            segment("option", PathArguments::Bare),
            segment("Option", one),
        ],
    )));
    assert!(is_option_type(&path_type(
        "Option<u8>::Item",
        false,
        vec![segment("Option", one), segment("Item", PathArguments::Bare)],
    )));
    assert!(is_option_type(&path_type("::Option<u8>", true, vec![segment("Option", one)])));
}

#[test]
fn the_name_of_a_type() {
    let name = |ty: &Type| get_type_identifier(ty).cloned();
    assert_eq!(
        name(&path_type("Dialog", false, vec![segment("Dialog", PathArguments::Bare)])).as_deref(),
        Some("Dialog")
    );
    assert_eq!(name(&path_type("::Dialog", true, vec![segment("Dialog", PathArguments::Bare)])), None);
    assert_eq!(
        name(&path_type("Dialog<u8>", false, vec![segment("Dialog", PathArguments::AngleBracketed(1))])),
        None
    );
    assert_eq!(
        name(&path_type("Dialog<>", false, vec![segment("Dialog", PathArguments::AngleBracketed(0))])),
        None
    );
    assert_eq!(
        name(&path_type("Fn()", false, vec![segment("Fn", PathArguments::Parenthesized)])),
        None
    );
    assert_eq!(
        name(&path_type(
            "a::Dialog",
            false,
            vec![segment("a", PathArguments::Bare), segment("Dialog", PathArguments::Bare)],
        )),
        None
    );
    assert_eq!(name(&path_type("", false, vec![])), None);
    assert_eq!(name(&other_type("Dialog")), None);
}

#[test]
fn the_text_of_a_path() {
    let ty = Type {
        text: "< A as B > :: C".to_string(),
        path: Some(TypePath {
            text: "B :: C".to_string(),
            leading_colon: false,
            segments: vec![segment("B", PathArguments::Bare), segment("C", PathArguments::Bare)],
        }),
    };
    assert_eq!(get_type_token_stream(&ty).map(String::as_str), Some("B :: C"));
    assert_eq!(get_type_token_stream(&other_type("[u8; 4]")), None);
}

#[test]
fn the_theme_attribute_is_the_first_of_its_name() {
    let attrs = vec![
        Attribute { ident: Some("doc".to_string()), meta: Meta::NameValue },
        theme(vec![ident("style")]),
        theme(vec![ident("colors")]),
    ];
    assert_eq!(find_theme_attribute(&attrs), Some(&attrs[1]));
    assert_eq!(find_attribute(&attrs), Some(&attrs[1]));
    assert_eq!(find_theme_attribute(&attrs[..1].iter().map(|_| Attribute { ident: None, meta: Meta::Path }).collect()), None);
    assert_eq!(find_theme_metadata(&attrs), Ok(Some(Metadata::Style)));
    assert_eq!(find_theme_metadata(&vec![]), Ok(None));
    assert_eq!(
        find_theme_metadata(&vec![theme(vec![ident("colors")]), theme(vec![ident("style")])]),
        Err(MetadataError::UnexpectedMetadata)
    );
}

#[test]
fn the_identifiers_of_a_group_are_names() {
    let names = collect_ident_names(&vec![
        ident("info"),
        Token::Punct(',', Spacing::Alone),
        ident("warn"),
        Token::Literal("\"error\"".to_string()),
        group(Delimiter::Parenthesis, vec![ident("inner")]),
        ident("info"),
    ]);
    assert_eq!(names, ["info", "warn", "info"]);
    assert!(collect_ident_names(&vec![]).is_empty());
}

#[test]
fn the_metadata_of_a_theme_file() {
    let styles = |names: &[&str]| Metadata::Styles(names.iter().map(|n| n.to_string()).collect());
    let read = |tokens: Vec<Token>| {
        let attr = theme(tokens);
        assert_eq!(metadata_fault(&attr), None);
        find_attribute_metadata(&attr)
    };
    assert_eq!(read(vec![]), None);
    assert_eq!(read(vec![ident("style")]), Some(Metadata::Style));
    assert_eq!(read(vec![ident("style"), ident("more")]), Some(Metadata::Style));
    for delimiter in [Delimiter::Parenthesis, Delimiter::Brace, Delimiter::Bracket] {
        assert_eq!(
            read(vec![ident("styles"), group(delimiter, vec![ident("a"), ident("b")])]),
            Some(styles(&["a", "b"]))
        );
    }
    assert_eq!(
        read(vec![ident("styles"), group(Delimiter::Parenthesis, vec![])]),
        Some(styles(&[]))
    );
}

#[test]
fn the_faults_of_the_metadata_of_a_theme_file() {
    let fault = |tokens: Vec<Token>| metadata_fault(&theme(tokens));
    assert_eq!(fault(vec![ident("styles")]), Some(MetadataError::MissingStyles));
    assert_eq!(fault(vec![ident("styles"), ident("a")]), Some(MetadataError::MissingStyles));
    assert_eq!(
        fault(vec![ident("styles"), Token::Punct('=', Spacing::Alone), group(Delimiter::Brace, vec![])]),
        Some(MetadataError::MissingStyles)
    );
    for first in [
        ident("colors"),
        ident("Style"),
        ident("r#style"),
        Token::Literal("\"style\"".to_string()),
        Token::Punct('-', Spacing::Alone),
        group(Delimiter::Parenthesis, vec![ident("style")]),
    ] {
        assert_eq!(fault(vec![first]), Some(MetadataError::UnexpectedMetadata));
    }
    for meta in [Meta::Path, Meta::NameValue] {
        let attr = Attribute { ident: Some("theme".to_string()), meta };
        assert_eq!(metadata_fault(&attr), Some(MetadataError::NotAList));
        assert_eq!(ratatheme::theme::metadata_fault(&attr), Some(MetadataError::NotAList));
    }
}

#[test]
fn the_metadata_of_a_theme_with_methods() {
    let read = |tokens: Vec<Token>| {
        let attr = theme(tokens);
        assert_eq!(ratatheme::theme::metadata_fault(&attr), None);
        find_metadata(&attr)
    };
    assert_eq!(read(vec![]), None);
    assert_eq!(read(vec![ident("style")]), Some(ratatheme::theme::Metadata::Style));
    assert_eq!(read(vec![ident("colors")]), Some(ratatheme::theme::Metadata::Colors));
    assert_eq!(
        read(vec![ident("styles"), group(Delimiter::Brace, vec![ident("a")])]),
        Some(ratatheme::theme::Metadata::Styles(vec!["a".to_string()]))
    );
    let fault = |tokens: Vec<Token>| ratatheme::theme::metadata_fault(&theme(tokens));
    assert_eq!(fault(vec![ident("styles")]), Some(MetadataError::MissingStyles));
    assert_eq!(fault(vec![ident("styles"), ident("a")]), Some(MetadataError::MissingStyles));
    assert_eq!(fault(vec![ident("colours")]), Some(MetadataError::UnexpectedMetadata));
    assert_eq!(
        fault(vec![Token::Literal("1".to_string())]),
        Some(MetadataError::UnexpectedMetadata)
    );
}

#[test]
fn the_method_of_a_style() {
    assert_eq!(
        generate_style_method("base"),
        "pub fn base(&self) -> ratatui::style::Style { \
         let mut style = ratatui::style::Style::default(); \
         if let Some(fg) = &self.base.foreground { style = style.fg(self._color_from_str(fg)); } \
         if let Some(bg) = &self.base.background { style = style.bg(self._color_from_str(bg)); } \
         style } "
    );
}

#[test]
fn the_methods_of_a_struct_of_styles() {
    let field = |name: &str, ty: Type| Field { ident: name.to_string(), ty, attrs: vec![] };
    let dialog = || path_type("Dialog", false, vec![segment("Dialog", PathArguments::Bare)]);
    let names = |names: &[&str]| names.iter().map(|n| n.to_string()).collect::<Vec<_>>();
    assert_eq!(styles_fault(&field("dialog", dialog()), &names(&["info", "warn"]), 3), None);
    let code = generate_styles_method(&field("dialog", dialog()), &names(&["info", "warn"]), 3);
    assert!(code.starts_with("pub fn dialog_info(&self) -> ratatui::style::Style { "));
    assert!(code.contains("if let Some(fg) = &self.dialog.info.foreground {"));
    assert!(code.contains("style } pub fn dialog_warn(&self) -> ratatui::style::Style { "));
    assert!(code.ends_with("if let Some(bg) = &self.dialog.warn.background { style = style.bg(self._color_from_str(bg)); } style } "));
    for name in ["dialog", "r#dialog"] {
        assert_eq!(styles_fault(&field(name, dialog()), &names(&[]), 3), None);
        assert_eq!(generate_styles_method(&field(name, dialog()), &names(&[]), 3), "");
    }
    assert_eq!(
        styles_fault(&field("r#dialog", dialog()), &names(&["a"]), 3),
        Some(DeriveError::RawName(3))
    );
    assert_eq!(
        styles_fault(&field("dialog", dialog()), &names(&["a", "b", "r#c"]), 4),
        Some(DeriveError::RawName(4))
    );
    assert_eq!(
        styles_fault(&field("r#dialog", other_type("(A, B)")), &names(&["r#a"]), 5),
        Some(DeriveError::TypeNotPath(5))
    );
    assert_eq!(
        styles_fault(
            &field("dialog", path_type("::Dialog", true, vec![segment("Dialog", PathArguments::Bare)])),
            &names(&["r#a"]),
            6
        ),
        Some(DeriveError::TypeNotIdent(6))
    );
}

#[test]
fn the_name_of_a_proxy() {
    assert_eq!(subtheme_proxy_name("DialogTheme"), "DialogThemeProxy");
    assert_eq!(subtheme_proxy_name("r#Type"), "TypeProxy");
    assert_eq!(subtheme_proxy_name(""), "Proxy");
}

#[test]
fn the_field_of_an_error() {
    assert_eq!(DeriveError::NotAStruct.field(), None);
    assert_eq!(DeriveError::MissingBuilder.field(), None);
    assert_eq!(DeriveError::MissingContext.field(), None);
    assert_eq!(DeriveError::UnnamedFields.field(), None);
    assert_eq!(DeriveError::NoFields.field(), None);
    assert_eq!(DeriveError::MissingValue(1).field(), Some(1));
    assert_eq!(DeriveError::Style(2, StyleError::Malformed).field(), Some(2));
    assert_eq!(DeriveError::Metadata(3, MetadataError::NotAList).field(), Some(3));
    assert_eq!(DeriveError::UnsupportedMetadata(4).field(), Some(4));
    assert_eq!(DeriveError::TypeNotPath(5).field(), Some(5));
    assert_eq!(DeriveError::TypeNotIdent(6).field(), Some(6));
    assert_eq!(DeriveError::RawName(7).field(), Some(7));
}

#[test]
fn the_default_style_has_no_colours() {
    assert_eq!(Style::default(), Style { fg: None, bg: None });
}

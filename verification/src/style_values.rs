//! What a `style` attribute asks for, and the code that builds such a style.

use crate::words::{name_view, same_text};
use vstd::prelude::*;
use vstd::string::*;

verus! {

/// What a `style` attribute asks for: the names of the two colours and the
/// modifiers. A modifier that the attribute names is `Some(true)`.
#[derive(Debug, PartialEq, Eq)]
pub struct StyleValues {
    pub foreground: Option<String>,
    pub background: Option<String>,
    pub bold: Option<bool>,
    pub dim: Option<bool>,
    pub italic: Option<bool>,
    pub underlined: Option<bool>,
    pub slow_blink: Option<bool>,
    pub rapid_blink: Option<bool>,
    pub reversed: Option<bool>,
    pub hidden: Option<bool>,
    pub crossed_out: Option<bool>,
}

/// [`StyleValues`] with the colours' names as sequences of characters.
pub ghost struct StyleValuesView {
    pub foreground: Option<Seq<char>>,
    pub background: Option<Seq<char>>,
    pub bold: Option<bool>,
    pub dim: Option<bool>,
    pub italic: Option<bool>,
    pub underlined: Option<bool>,
    pub slow_blink: Option<bool>,
    pub rapid_blink: Option<bool>,
    pub reversed: Option<bool>,
    pub hidden: Option<bool>,
    pub crossed_out: Option<bool>,
}

/// Whether `name` is one of the four keys that take a colour.
pub open spec fn is_colour_key(name: Seq<char>) -> bool {
    name == "fg"@ || name == "foreground"@ || name == "bg"@ || name == "background"@
}

impl View for StyleValues {
    type V = StyleValuesView;

    open spec fn view(&self) -> StyleValuesView {
        StyleValuesView {
            foreground: name_view(self.foreground),
            background: name_view(self.background),
            bold: self.bold,
            dim: self.dim,
            italic: self.italic,
            underlined: self.underlined,
            slow_blink: self.slow_blink,
            rapid_blink: self.rapid_blink,
            reversed: self.reversed,
            hidden: self.hidden,
            crossed_out: self.crossed_out,
        }
    }
}

impl StyleValuesView {
    /// Nothing asked for.
    pub open spec fn empty() -> StyleValuesView {
        StyleValuesView {
            foreground: None,
            background: None,
            bold: None,
            dim: None,
            italic: None,
            underlined: None,
            slow_blink: None,
            rapid_blink: None,
            reversed: None,
            hidden: None,
            crossed_out: None,
        }
    }

    /// These values after the bare word `name`: a modifier's name switches
    /// that modifier on, any other word changes nothing.
    pub open spec fn with_flag(self, name: Seq<char>) -> StyleValuesView {
        if name == "bold"@ {
            StyleValuesView { bold: Some(true), ..self }
        } else if name == "dim"@ {
            StyleValuesView { dim: Some(true), ..self }
        } else if name == "italic"@ {
            StyleValuesView { italic: Some(true), ..self }
        } else if name == "underlined"@ {
            StyleValuesView { underlined: Some(true), ..self }
        } else if name == "slow_blink"@ {
            StyleValuesView { slow_blink: Some(true), ..self }
        } else if name == "rapid_blink"@ {
            StyleValuesView { rapid_blink: Some(true), ..self }
        } else if name == "reversed"@ {
            StyleValuesView { reversed: Some(true), ..self }
        } else if name == "hidden"@ {
            StyleValuesView { hidden: Some(true), ..self }
        } else if name == "crossed_out"@ {
            StyleValuesView { crossed_out: Some(true), ..self }
        } else {
            self
        }
    }

    /// These values after the key `name` was given the colour `colour`:
    /// `fg` and `foreground` set the foreground, `bg` and `background` the
    /// background, any other key changes nothing.
    pub open spec fn with_colour(self, name: Seq<char>, colour: Seq<char>) -> StyleValuesView {
        if name == "fg"@ || name == "foreground"@ {
            StyleValuesView { foreground: Some(colour), ..self }
        } else if name == "bg"@ || name == "background"@ {
            StyleValuesView { background: Some(colour), ..self }
        } else {
            self
        }
    }
}

/// One call in the chain that builds a style: a colour read from `receiver`.
pub open spec fn colour_call(method: Seq<char>, receiver: Seq<char>, colour: Option<Seq<char>>) -> Seq<
    char,
> {
    match colour {
        Some(colour) => "."@ + method + "("@ + receiver + "."@ + colour + ".clone().into())"@,
        None => Seq::empty(),
    }
}

/// One call in the chain that builds a style: a modifier, if it is asked for.
pub open spec fn modifier_call(flag: Option<bool>, modifier: Seq<char>) -> Seq<char> {
    if flag is Some {
        ".add_modifier(ratatui::style::Modifier::"@ + modifier + ")"@
    } else {
        Seq::empty()
    }
}

/// The code that initialises the field `field` with the style that `values`
/// asks for, the colours being fields of `receiver`.
pub open spec fn style_constructor(field: Seq<char>, values: StyleValuesView, receiver: Seq<char>) -> Seq<
    char,
> {
    field + ": ratatui::style::Style::default()"@ + colour_call(
        "fg"@,
        receiver,
        values.foreground,
    ) + colour_call("bg"@, receiver, values.background) + modifier_call(values.bold, "BOLD"@)
        + modifier_call(values.dim, "DIM"@) + modifier_call(values.italic, "ITALIC"@)
        + modifier_call(values.underlined, "UNDERLINED"@) + modifier_call(
        values.slow_blink,
        "SLOW_BLINK"@,
    ) + modifier_call(values.rapid_blink, "RAPID_BLINK"@) + modifier_call(
        values.reversed,
        "REVERSED"@,
    ) + modifier_call(values.hidden, "HIDDEN"@) + modifier_call(values.crossed_out, "CROSSED_OUT"@)
}

impl StyleValues {
    /// Nothing asked for.
    pub fn new() -> (values: StyleValues)
        ensures
            values@ == StyleValuesView::empty(),
    {
        StyleValues {
            foreground: None,
            background: None,
            bold: None,
            dim: None,
            italic: None,
            underlined: None,
            slow_blink: None,
            rapid_blink: None,
            reversed: None,
            hidden: None,
            crossed_out: None,
        }
    }

    /// Takes the bare word `name` into account.
    pub fn set_flag(&mut self, name: &str)
        ensures
            final(self)@ == old(self)@.with_flag(name@),
    {
        if same_text(name, "bold") {
            self.bold = Some(true);
        } else if same_text(name, "dim") {
            self.dim = Some(true);
        } else if same_text(name, "italic") {
            self.italic = Some(true);
        } else if same_text(name, "underlined") {
            self.underlined = Some(true);
        } else if same_text(name, "slow_blink") {
            self.slow_blink = Some(true);
        } else if same_text(name, "rapid_blink") {
            self.rapid_blink = Some(true);
        } else if same_text(name, "reversed") {
            self.reversed = Some(true);
        } else if same_text(name, "hidden") {
            self.hidden = Some(true);
        } else if same_text(name, "crossed_out") {
            self.crossed_out = Some(true);
        }
    }

    /// Takes the colour `colour`, given to the key `name`, into account.
    pub fn set_colour(&mut self, name: &str, colour: &str)
        ensures
            final(self)@ == old(self)@.with_colour(name@, colour@),
    {
        if same_text(name, "fg") || same_text(name, "foreground") {
            self.foreground = Some(String::from_str(colour));
        } else if same_text(name, "bg") || same_text(name, "background") {
            self.background = Some(String::from_str(colour));
        }
    }

    /// The code that initialises the field `field` with this style, the
    /// colours being fields of `receiver`.
    pub fn constructor(&self, field: &str, receiver: &str) -> (code: String)
        ensures
            code@ == style_constructor(field@, self@, receiver@),
    {
        let mut code = String::from_str(field);
        code.append(": ratatui::style::Style::default()");
        code.append(colour_call_code("fg", receiver, &self.foreground).as_str());
        code.append(colour_call_code("bg", receiver, &self.background).as_str());
        code.append(modifier_call_code(&self.bold, "BOLD").as_str());
        code.append(modifier_call_code(&self.dim, "DIM").as_str());
        code.append(modifier_call_code(&self.italic, "ITALIC").as_str());
        code.append(modifier_call_code(&self.underlined, "UNDERLINED").as_str());
        code.append(modifier_call_code(&self.slow_blink, "SLOW_BLINK").as_str());
        code.append(modifier_call_code(&self.rapid_blink, "RAPID_BLINK").as_str());
        code.append(modifier_call_code(&self.reversed, "REVERSED").as_str());
        code.append(modifier_call_code(&self.hidden, "HIDDEN").as_str());
        code.append(modifier_call_code(&self.crossed_out, "CROSSED_OUT").as_str());
        code
    }
}

/// Whether `name` is one of the four keys that take a colour.
pub fn takes_colour(name: &str) -> (r: bool)
    ensures
        r == is_colour_key(name@),
{
    same_text(name, "fg") || same_text(name, "foreground") || same_text(name, "bg") || same_text(
        name,
        "background",
    )
}

fn colour_call_code(method: &str, receiver: &str, colour: &Option<String>) -> (code: String)
    ensures
        code@ == colour_call(method@, receiver@, name_view(*colour)),
{
    match colour {
        Some(colour) => {
            let mut code = String::from_str(".");
            code.append(method);
            code.append("(");
            code.append(receiver);
            code.append(".");
            code.append(colour.as_str());
            code.append(".clone().into())");
            code
        },
        None => String::new(),
    }
}

fn modifier_call_code(flag: &Option<bool>, modifier: &str) -> (code: String)
    ensures
        code@ == modifier_call(*flag, modifier@),
{
    if flag.is_some() {
        let mut code = String::from_str(".add_modifier(ratatui::style::Modifier::");
        code.append(modifier);
        code.append(")");
        code
    } else {
        String::new()
    }
}

} // verus!

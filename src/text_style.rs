//! The text-decoration pass: a node's decoration record from its tag and its
//! `text-decoration*` attributes.
use vstd::prelude::*;
use crate::units::LengthValue;

verus! {

/// Which lines are drawn.
#[derive(Clone, Copy, Debug, PartialEq, Eq, Structural)]
pub struct DecorationLine {
    pub underline: bool,
    pub overline: bool,
    pub line_through: bool,
    pub blink: bool,
    pub spelling_error: bool,
    pub grammar_error: bool,
}

#[derive(Clone, Copy, Debug, PartialEq, Eq, Structural)]
pub enum DecorationStyle {
    Solid,
    Double,
    Dotted,
    Dashed,
    Wavy,
}

#[derive(Clone, Copy, Debug, PartialEq, Eq, Structural)]
pub enum DecorationThickness {
    Auto,
    FromFont,
    Length(LengthValue),
    /// A fraction of the font size, fixed-point.
    Percentage(i64),
}

/// A color as the style passes keep it.
#[derive(Clone, Copy, Debug, PartialEq, Eq, Structural)]
pub enum Color {
    CurrentColor,
    Rgba(u8, u8, u8, u8),
}

#[derive(Clone, Copy, Debug, PartialEq, Eq, Structural)]
pub struct TextDecoration {
    pub line: DecorationLine,
    pub thickness: DecorationThickness,
    pub style: DecorationStyle,
    pub color: Color,
}

/// The attributes the pass watches.
#[derive(Clone, Copy, Debug, PartialEq, Eq, Structural)]
pub enum DecorationProperty {
    Shorthand,
    Line,
    Color,
    Style,
    Thickness,
}

/// One watched attribute with its parsed value; `None` where the text did not
/// parse, which leaves the field as it was.
#[derive(Clone, Copy, Debug, PartialEq, Eq, Structural)]
pub enum DecorationDeclaration {
    Shorthand(Option<TextDecoration>),
    Line(Option<DecorationLine>),
    Color(Option<Color>),
    Style(Option<DecorationStyle>),
    Thickness(Option<DecorationThickness>),
}

pub open spec fn no_lines() -> DecorationLine {
    DecorationLine {
        underline: false,
        overline: false,
        line_through: false,
        blink: false,
        spelling_error: false,
        grammar_error: false,
    }
}

/// The record of a node with no decoration: no lines, automatic thickness,
/// solid, transparent.
pub open spec fn default_decoration() -> TextDecoration {
    TextDecoration {
        line: no_lines(),
        thickness: DecorationThickness::Auto,
        style: DecorationStyle::Solid,
        color: Color::Rgba(0, 0, 0, 0),
    }
}

/// What the tag alone implies: `ins` and `u` underline, `del` strikes through.
pub open spec fn tag_decoration(tag: Option<Seq<char>>) -> TextDecoration {
    let d = default_decoration();
    match tag {
        Some(t) => if t == "ins"@ || t == "u"@ {
            TextDecoration { line: DecorationLine { underline: true, ..no_lines() }, ..d }
        } else if t == "del"@ {
            TextDecoration { line: DecorationLine { line_through: true, ..no_lines() }, ..d }
        } else {
            d
        },
        None => d,
    }
}

pub open spec fn apply_declaration(d: TextDecoration, decl: DecorationDeclaration) -> TextDecoration {
    match decl {
        DecorationDeclaration::Shorthand(Some(v)) => v,
        DecorationDeclaration::Line(Some(v)) => TextDecoration { line: v, ..d },
        DecorationDeclaration::Color(Some(v)) => TextDecoration { color: v, ..d },
        DecorationDeclaration::Style(Some(v)) => TextDecoration { style: v, ..d },
        DecorationDeclaration::Thickness(Some(v)) => TextDecoration { thickness: v, ..d },
        _ => d,
    }
}

/// The declarations applied in order, each over what came before.
pub open spec fn apply_declarations(d: TextDecoration, s: Seq<DecorationDeclaration>) -> TextDecoration
    decreases s.len(),
{
    if s.len() == 0 {
        d
    } else {
        apply_declaration(apply_declarations(d, s.drop_last()), s.last())
    }
}

/// The record of a node: the tag's decoration, then its attributes.
pub open spec fn decoration_of(tag: Option<Seq<char>>, s: Seq<DecorationDeclaration>) -> TextDecoration {
    apply_declarations(tag_decoration(tag), s)
}

/// The property an attribute name stands for, among the watched ones.
pub open spec fn decoration_property_of(name: Seq<char>) -> Option<DecorationProperty> {
    if name == "text-decoration"@ {
        Some(DecorationProperty::Shorthand)
    } else if name == "text-decoration-line"@ {
        Some(DecorationProperty::Line)
    } else if name == "text-decoration-color"@ {
        Some(DecorationProperty::Color)
    } else if name == "text-decoration-style"@ {
        Some(DecorationProperty::Style)
    } else if name == "text-decoration-thickness"@ {
        Some(DecorationProperty::Thickness)
    } else {
        None
    }
}

/// `s` equals the literal `lit`.
pub(crate) fn is_literal(s: &String, lit: &str) -> (r: bool)
    ensures
        r == (s@ == lit@),
{
    let owned = lit.to_owned();
    *s == owned
}

/// The attribute names the pass watches.
pub fn decoration_attributes() -> (r: Vec<String>)
    ensures
        r@.len() == 5,
        forall|i: int| 0 <= i < 5 ==> decoration_property_of(#[trigger] r@[i]@) is Some,
{
    let r = vec![
        "text-decoration".to_owned(),
        "text-decoration-line".to_owned(),
        "text-decoration-color".to_owned(),
        "text-decoration-style".to_owned(),
        "text-decoration-thickness".to_owned(),
    ];
    r
}

/// The property that a watched attribute name stands for; `None` for any
/// other name.
pub fn decoration_property(name: &String) -> (r: Option<DecorationProperty>)
    ensures
        r == decoration_property_of(name@),
{
    if is_literal(name, "text-decoration") {
        Some(DecorationProperty::Shorthand)
    } else if is_literal(name, "text-decoration-line") {
        Some(DecorationProperty::Line)
    } else if is_literal(name, "text-decoration-color") {
        Some(DecorationProperty::Color)
    } else if is_literal(name, "text-decoration-style") {
        Some(DecorationProperty::Style)
    } else if is_literal(name, "text-decoration-thickness") {
        Some(DecorationProperty::Thickness)
    } else {
        None
    }
}

impl Default for TextDecoration {
    fn default() -> (r: Self)
        ensures
            r == default_decoration(),
    {
        TextDecoration::new()
    }
}

impl TextDecoration {
    /// The record of a new node: the pass run over the default record.
    pub fn create(tag: Option<&String>, attrs: &Vec<DecorationDeclaration>) -> (r: Self)
        ensures
            r == decoration_of(
                match tag {
                    Some(t) => Some(t@),
                    None => None,
                },
                attrs@,
            ),
    {
        let mut r = TextDecoration::new();
        r.pass(tag, attrs);
        r
    }

    pub fn new() -> (r: Self)
        ensures
            r == default_decoration(),
    {
        TextDecoration {
            line: DecorationLine {
                underline: false,
                overline: false,
                line_through: false,
                blink: false,
                spelling_error: false,
                grammar_error: false,
            },
            thickness: DecorationThickness::Auto,
            style: DecorationStyle::Solid,
            color: Color::Rgba(0, 0, 0, 0),
        }
    }

    /// Recomputes the record of a node from its tag (`None` for a node in a
    /// namespace, whose tag implies nothing) and its watched attributes.
    /// Returns whether the record changed.
    pub fn pass(&mut self, tag: Option<&String>, attrs: &Vec<DecorationDeclaration>) -> (changed: bool)
        ensures
            *final(self) == decoration_of(
                match tag {
                    Some(t) => Some(t@),
                    None => None,
                },
                attrs@,
            ),
            changed == (*final(self) != *old(self)),
    {
        let mut new = TextDecoration::new();
        if let Some(t) = tag {
            if is_literal(t, "ins") || is_literal(t, "u") {
                new.line.underline = true;
            } else if is_literal(t, "del") {
                new.line.line_through = true;
            }
        }
        let ghost start = new;
        let mut i: usize = 0;
        while i < attrs.len()
            invariant
                i <= attrs@.len(),
                new == apply_declarations(start, attrs@.subrange(0, i as int)),
            decreases attrs@.len() - i,
        {
            let decl = attrs[i];
            match decl {
                DecorationDeclaration::Shorthand(Some(v)) => {
                    new.line = v.line;
                    new.style = v.style;
                    new.thickness = v.thickness;
                    new.color = v.color;
                },
                DecorationDeclaration::Line(Some(v)) => new.line = v,
                DecorationDeclaration::Color(Some(v)) => new.color = v,
                DecorationDeclaration::Style(Some(v)) => new.style = v,
                DecorationDeclaration::Thickness(Some(v)) => new.thickness = v,
                _ => {},
            }
            assert(attrs@.subrange(0, i + 1).drop_last() =~= attrs@.subrange(0, i as int));
            i = i + 1;
        }
        assert(attrs@.subrange(0, attrs@.len() as int) =~= attrs@);
        if new != *self {
            *self = new;
            true
        } else {
            false
        }
    }
}

/// An attribute that sets the lines wins over what the tag implies.
pub proof fn lemma_attribute_overrides_tag(tag: Option<Seq<char>>, line: DecorationLine)
    ensures
        decoration_of(tag, seq![DecorationDeclaration::Line(Some(line))]).line == line,
{
    let s = seq![DecorationDeclaration::Line(Some(line))];
    assert(s.drop_last() =~= Seq::<DecorationDeclaration>::empty());
}

} // verus!

use blitz::css::keyword_declaration;
use blitz::text_style::{
    decoration_attributes, decoration_property, Color, DecorationDeclaration, DecorationLine,
    DecorationProperty, DecorationStyle, DecorationThickness, TextDecoration,
};

fn lines(underline: bool, line_through: bool) -> DecorationLine {
    DecorationLine {
        underline,
        overline: false,
        line_through,
        blink: false,
        spelling_error: false,
        grammar_error: false,
    }
}

#[test]
fn attribute_line_wins_over_del_tag() {
    let mut d = TextDecoration::new();
    let tag = "del".to_string();
    let attrs = vec![DecorationDeclaration::Line(Some(lines(true, false)))];
    assert!(d.pass(Some(&tag), &attrs));
    assert_eq!(d.line, lines(true, false));
}

#[test]
fn tags_imply_lines() {
    let mut d = TextDecoration::new();
    assert!(d.pass(Some(&"ins".to_string()), &vec![]));
    assert_eq!(d.line, lines(true, false));
    assert!(!d.pass(Some(&"u".to_string()), &vec![]));
    assert!(d.pass(Some(&"del".to_string()), &vec![]));
    assert_eq!(d.line, lines(false, true));
    assert!(d.pass(Some(&"div".to_string()), &vec![]));
    assert_eq!(d, TextDecoration::new());
    assert!(!d.pass(None, &vec![]));
}

#[test]
fn unparsed_values_are_ignored() {
    let mut d = TextDecoration::new();
    let tag = "u".to_string();
    let attrs = vec![
        DecorationDeclaration::Line(None),
        DecorationDeclaration::Style(None),
        DecorationDeclaration::Shorthand(None),
    ];
    d.pass(Some(&tag), &attrs);
    assert_eq!(d.line, lines(true, false));
    assert_eq!(d.style, DecorationStyle::Solid);
}

#[test]
fn shorthand_then_longhands() {
    let short = TextDecoration {
        line: lines(false, true),
        thickness: DecorationThickness::FromFont,
        style: DecorationStyle::Dotted,
        color: Color::Rgba(1, 2, 3, 255),
    };
    let mut d = TextDecoration::new();
    let attrs = vec![
        DecorationDeclaration::Shorthand(Some(short)),
        DecorationDeclaration::Style(Some(DecorationStyle::Wavy)),
        DecorationDeclaration::Color(Some(Color::CurrentColor)),
    ];
    assert!(d.pass(None, &attrs));
    assert_eq!(d.line, lines(false, true));
    assert_eq!(d.thickness, DecorationThickness::FromFont);
    assert_eq!(d.style, DecorationStyle::Wavy);
    assert_eq!(d.color, Color::CurrentColor);
}

#[test]
fn watched_names_are_handled() {
    for name in decoration_attributes() {
        assert!(decoration_property(&name).is_some(), "{name}");
    }
    assert_eq!(
        decoration_property(&"text-decoration-color".to_string()),
        Some(DecorationProperty::Color)
    );
    assert_eq!(decoration_property(&"font-size".to_string()), None);
}

#[test]
fn keyword_values_parse_through_lightningcss() {
    assert_eq!(
        keyword_declaration(DecorationProperty::Line, "underline line-through"),
        Some(DecorationDeclaration::Line(Some(lines(true, true))))
    );
    assert_eq!(
        keyword_declaration(DecorationProperty::Line, "none"),
        Some(DecorationDeclaration::Line(Some(lines(false, false))))
    );
    assert_eq!(
        keyword_declaration(DecorationProperty::Line, "sideways"),
        Some(DecorationDeclaration::Line(None))
    );
    assert_eq!(
        keyword_declaration(DecorationProperty::Style, "dashed"),
        Some(DecorationDeclaration::Style(Some(DecorationStyle::Dashed)))
    );
    assert_eq!(
        keyword_declaration(DecorationProperty::Color, "red"),
        Some(DecorationDeclaration::Color(Some(Color::Rgba(255, 0, 0, 255))))
    );
    assert_eq!(
        keyword_declaration(DecorationProperty::Color, "currentColor"),
        Some(DecorationDeclaration::Color(Some(Color::CurrentColor)))
    );
    assert_eq!(keyword_declaration(DecorationProperty::Thickness, "2px"), None);
}

#[test]
fn create_runs_the_pass_over_defaults() {
    let tag = "ins".to_string();
    let d = TextDecoration::create(Some(&tag), &vec![DecorationDeclaration::Color(Some(Color::CurrentColor))]);
    assert_eq!(d.line, lines(true, false));
    assert_eq!(d.color, Color::CurrentColor);
    assert_eq!(TextDecoration::default(), TextDecoration::new());
    assert_eq!(TextDecoration::new().color, Color::Rgba(0, 0, 0, 0));
}

use blitz::font_size::{AbsoluteFontSize, FontSize, FontSizeSpec, RelativeFontSize};
use blitz::font_style::{
    font_attributes, font_property, parse_font_size_from_attr, AttributeValue, ComputedFontSize,
    Font, FontDeclaration, FontFamily, FontProperty, FontStyle, FontWeight, GenericFontFamily,
};
use blitz::units::{LengthPercentage, LengthValue, ResolveError, Viewport};

fn length(v: LengthValue) -> FontSizeSpec {
    FontSizeSpec::Length(LengthPercentage::Dimension(v))
}

#[test]
fn cascade_over_three_nodes() {
    let mut root = FontSize::default();
    assert_eq!(root.reduce(Some(&length(LengthValue::Px(16_000))), None), Ok(false));
    let mut a = FontSize::default();
    assert_eq!(a.reduce(Some(&length(LengthValue::Em(2_000))), Some(&root)), Ok(true));
    assert_eq!(a, FontSize(32_000));
    let mut b = FontSize::default();
    let half = FontSizeSpec::Length(LengthPercentage::Percentage(500));
    assert_eq!(b.reduce(Some(&half), Some(&a)), Ok(false));
    assert_eq!(b, FontSize(16_000));
}

#[test]
fn cascade_reports_unchanged_for_equal_value() {
    // "16px" and "16.0px" parse to the same value
    let mut n = FontSize(20_000);
    assert_eq!(n.reduce(Some(&length(LengthValue::Px(16_000))), None), Ok(true));
    assert_eq!(n.reduce(Some(&length(LengthValue::Px(16_000))), None), Ok(false));
    assert_eq!(n, FontSize(16_000));
}

#[test]
fn cascade_keywords_and_missing_value() {
    let parent = FontSize(20_000);
    let mut n = FontSize::default();
    assert_eq!(n.reduce(None, Some(&parent)), Ok(false));
    assert_eq!(n, FontSize(16_000));
    n.reduce(Some(&FontSizeSpec::Absolute(AbsoluteFontSize::XXLarge)), Some(&parent)).unwrap();
    assert_eq!(n, FontSize(32_000));
    n.reduce(Some(&FontSizeSpec::Absolute(AbsoluteFontSize::Small)), Some(&parent)).unwrap();
    assert_eq!(n, FontSize(13_000));
    n.reduce(Some(&FontSizeSpec::Relative(RelativeFontSize::Smaller)), Some(&parent)).unwrap();
    assert_eq!(n, FontSize(18_000));
    n.reduce(Some(&FontSizeSpec::Relative(RelativeFontSize::Larger)), Some(&parent)).unwrap();
    assert_eq!(n, FontSize(22_000));
    n.reduce(Some(&length(LengthValue::Rem(1_500))), Some(&parent)).unwrap();
    assert_eq!(n, FontSize(24_000));
}

#[test]
fn cascade_unsupported_unit_keeps_size() {
    let mut n = FontSize(20_000);
    assert_eq!(
        n.reduce(Some(&length(LengthValue::Vw(1_000))), None),
        Err(ResolveError::UnsupportedUnit)
    );
    assert_eq!(n, FontSize(20_000));
}

#[test]
fn computed_size_factors() {
    let parent = ComputedFontSize(20_000);
    let vp = Viewport { width: 1000, height: 500 };
    let me = ComputedFontSize(0);
    let abs = FontSizeSpec::Absolute(AbsoluteFontSize::XXSmall);
    assert_eq!(me.compute_from(&abs, parent, vp), Ok(ComputedFontSize(9_600)));
    let rel = FontSizeSpec::Relative(RelativeFontSize::Smaller);
    assert_eq!(me.compute_from(&rel, parent, vp), Ok(ComputedFontSize(16_000)));
    let pct = FontSizeSpec::Length(LengthPercentage::Percentage(1_500));
    assert_eq!(me.compute_from(&pct, parent, vp), Ok(ComputedFontSize(30_000)));
    let vw = length(LengthValue::Vw(2_000));
    assert_eq!(me.compute_from(&vw, parent, vp), Ok(ComputedFontSize(20_000)));
}

#[test]
fn font_size_from_attribute() {
    let text = |s: FontSizeSpec| AttributeValue::Text(Some(s));
    assert_eq!(parse_font_size_from_attr(&text(length(LengthValue::Rem(2_000))), 10_000, 20_000), Some(40_000));
    assert_eq!(parse_font_size_from_attr(&text(length(LengthValue::Em(2_000))), 10_000, 20_000), Some(20_000));
    assert_eq!(parse_font_size_from_attr(&text(length(LengthValue::Px(7_000))), 10_000, 20_000), Some(7_000));
    assert_eq!(
        parse_font_size_from_attr(&text(FontSizeSpec::Absolute(AbsoluteFontSize::Large)), 10_000, 20_000),
        Some(25_000)
    );
    assert_eq!(
        parse_font_size_from_attr(&text(FontSizeSpec::Relative(RelativeFontSize::Larger)), 10_000, 20_000),
        Some(12_500)
    );
    assert_eq!(parse_font_size_from_attr(&AttributeValue::Int(12), 10_000, 20_000), Some(12_000));
    assert_eq!(parse_font_size_from_attr(&AttributeValue::Float(12_500), 10_000, 20_000), Some(12_500));
    assert_eq!(parse_font_size_from_attr(&AttributeValue::Bool(true), 10_000, 20_000), None);
    assert_eq!(parse_font_size_from_attr(&AttributeValue::Text(None), 10_000, 20_000), None);
    assert_eq!(parse_font_size_from_attr(&text(length(LengthValue::Vh(1_000))), 10_000, 20_000), None);
}

#[test]
fn font_pass_assigns_fields() {
    let vp = Viewport { width: 800, height: 600 };
    let mut f = Font::new();
    assert!(!f.pass(&vec![], vp));
    let decls = vec![
        FontDeclaration::Family(vec![FontFamily::FamilyName("Inter".to_string())]),
        FontDeclaration::Size(FontSizeSpec::Absolute(AbsoluteFontSize::XXLarge)),
        FontDeclaration::Style(FontStyle::Italic),
        FontDeclaration::Weight(FontWeight::Bold),
        FontDeclaration::SizeAdjust,
    ];
    assert!(f.pass(&decls, vp));
    assert_eq!(f.size, ComputedFontSize(32_000));
    assert_eq!(f.style, FontStyle::Italic);
    assert_eq!(f.weight, FontWeight::Bold);
    assert!(matches!(&f.family[..], [FontFamily::FamilyName(n)] if n == "Inter"));
    assert!(!f.pass(&decls, vp));
    assert!(f.pass(&vec![], vp));
    assert!(matches!(&f.family[..], [FontFamily::Generic(GenericFontFamily::Default)]));
}

#[test]
fn font_watched_names_are_handled() {
    for name in font_attributes() {
        assert!(font_property(&name).is_some(), "{name}");
    }
    assert_eq!(font_property(&"font-weight".to_string()), Some(FontProperty::Weight));
    assert_eq!(font_property(&"color".to_string()), None);
}

#[test]
fn font_create_and_default() {
    let vp = Viewport { width: 0, height: 0 };
    let f = Font::create(&vec![FontDeclaration::Weight(FontWeight::Lighter)], vp);
    assert_eq!(f.weight, FontWeight::Lighter);
    assert_eq!(f.size, ComputedFontSize(16_000));
    let d = Font::default();
    assert_eq!(d.weight, FontWeight::Normal);
    assert_eq!(d.stretch, 1_000);
    assert!(matches!(FontFamily::default(), FontFamily::Generic(GenericFontFamily::Default)));
    assert_eq!(FontSize::default(), FontSize(16_000));
}

//! The font record of a node and the factor-based font-size rule.
use vstd::prelude::*;
use crate::font_size::{AbsoluteFontSize, FontSizeSpec, RelativeFontSize};
use crate::text_style::is_literal;
use crate::units::{
    checked, lp_px, mul_fixed, LengthPercentage, LengthValue, ResolveContext, ResolveError,
    Viewport, DEFAULT_FONT_SIZE,
};

verus! {

/// A resolved font size, fixed-point pixels.
#[derive(Clone, Copy, Debug, PartialEq, Eq, Structural)]
pub struct ComputedFontSize(pub i64);

/// Scale of each absolute keyword against the default size, fixed-point.
pub open spec fn absolute_factor(a: AbsoluteFontSize) -> i64 {
    match a {
        AbsoluteFontSize::XXSmall => 600,
        AbsoluteFontSize::XSmall => 750,
        AbsoluteFontSize::Small => 890,
        AbsoluteFontSize::Medium => 1000,
        AbsoluteFontSize::Large => 1250,
        AbsoluteFontSize::XLarge => 1500,
        AbsoluteFontSize::XXLarge => 2000,
    }
}

/// Scale of each relative keyword against the parent, fixed-point.
pub open spec fn relative_factor(r: RelativeFontSize) -> i64 {
    match r {
        RelativeFontSize::Smaller => 800,
        RelativeFontSize::Larger => 1250,
    }
}

fn absolute_factor_of(a: AbsoluteFontSize) -> (r: i64)
    ensures
        r == absolute_factor(a),
{
    match a {
        AbsoluteFontSize::XXSmall => 600,
        AbsoluteFontSize::XSmall => 750,
        AbsoluteFontSize::Small => 890,
        AbsoluteFontSize::Medium => 1000,
        AbsoluteFontSize::Large => 1250,
        AbsoluteFontSize::XLarge => 1500,
        AbsoluteFontSize::XXLarge => 2000,
    }
}

fn relative_factor_of(r: RelativeFontSize) -> (f: i64)
    ensures
        f == relative_factor(r),
{
    match r {
        RelativeFontSize::Smaller => 800,
        RelativeFontSize::Larger => 1250,
    }
}

/// `a` times `b`, both fixed-point, narrowed.
fn times(a: i64, b: i64) -> (r: Result<i64, ResolveError>)
    ensures
        r == checked(mul_fixed(a as int, b as int)),
{
    let v = LengthValue::Rem(a);
    let ctx = ResolveContext { container: 0, font_size: b, viewport: Viewport { width: 0, height: 0 } };
    v.resolve(&ctx)
}

/// The size of a node with value `v` under a parent of size `parent`: lengths
/// resolve with the parent as container and as font size, keywords scale by
/// their factor.
pub open spec fn computed_size(v: FontSizeSpec, parent: i64, viewport: Viewport) -> Result<
    i64,
    ResolveError,
> {
    match v {
        FontSizeSpec::Length(l) => lp_px(
            l,
            ResolveContext { container: parent, font_size: parent, viewport },
        ),
        FontSizeSpec::Absolute(a) => checked(mul_fixed(absolute_factor(a) as int, DEFAULT_FONT_SIZE as int)),
        FontSizeSpec::Relative(r) => checked(mul_fixed(relative_factor(r) as int, parent as int)),
    }
}

impl ComputedFontSize {
    pub fn compute_from(
        &self,
        font_size: &FontSizeSpec,
        parent_font_size: ComputedFontSize,
        viewport: Viewport,
    ) -> (r: Result<Self, ResolveError>)
        ensures
            match computed_size(*font_size, parent_font_size.0, viewport) {
                Ok(n) => r == Ok::<ComputedFontSize, ResolveError>(ComputedFontSize(n)),
                Err(e) => r == Err::<ComputedFontSize, ResolveError>(e),
            },
    {
        let size = match font_size {
            FontSizeSpec::Length(length) => {
                let ctx = ResolveContext {
                    container: parent_font_size.0,
                    font_size: parent_font_size.0,
                    viewport,
                };
                length.resolve(&ctx)
            },
            FontSizeSpec::Absolute(a) => times(absolute_factor_of(*a), DEFAULT_FONT_SIZE),
            FontSizeSpec::Relative(r) => times(relative_factor_of(*r), parent_font_size.0),
        };
        match size {
            Ok(n) => Ok(ComputedFontSize(n)),
            Err(e) => Err(e),
        }
    }
}

/// An attribute value as the tree holds it; text comes parsed, `None` where
/// it did not parse.
#[derive(Debug)]
pub enum AttributeValue {
    Text(Option<FontSizeSpec>),
    /// A number, fixed-point.
    Float(i64),
    Int(i64),
    Bool(bool),
}

/// The font size an attribute gives, if any: `em`, percentages and relative
/// keywords scale the parent, `rem` and absolute keywords the root; `calc()`
/// and units without a pixel conversion give nothing.
pub open spec fn attribute_font_size(v: AttributeValue, parent: i64, root: i64) -> Option<i64> {
    let r = match v {
        AttributeValue::Text(Some(FontSizeSpec::Length(l))) => match l {
            LengthPercentage::Dimension(LengthValue::Rem(s)) => checked(mul_fixed(s as int, root as int)),
            LengthPercentage::Dimension(LengthValue::Em(s)) => checked(mul_fixed(s as int, parent as int)),
            LengthPercentage::Dimension(LengthValue::Px(s)) => Ok(s),
            LengthPercentage::Percentage(p) => checked(mul_fixed(p as int, parent as int)),
            _ => Err(ResolveError::UnsupportedUnit),
        },
        AttributeValue::Text(Some(FontSizeSpec::Absolute(a))) => checked(
            mul_fixed(absolute_factor(a) as int, root as int),
        ),
        AttributeValue::Text(Some(FontSizeSpec::Relative(r))) => checked(
            mul_fixed(relative_factor(r) as int, parent as int),
        ),
        AttributeValue::Float(n) => Ok(n),
        AttributeValue::Int(n) => checked(n * 1000),
        _ => Err(ResolveError::UnsupportedUnit),
    };
    match r {
        Ok(n) => Some(n),
        Err(_) => None,
    }
}

pub fn parse_font_size_from_attr(css_value: &AttributeValue, parent_font_size: i64, root_font_size: i64) -> (r:
    Option<i64>)
    ensures
        r == attribute_font_size(*css_value, parent_font_size, root_font_size),
{
    let size = match css_value {
        AttributeValue::Text(Some(FontSizeSpec::Length(l))) => match l {
            LengthPercentage::Dimension(LengthValue::Rem(s)) => times(*s, root_font_size),
            LengthPercentage::Dimension(LengthValue::Em(s)) => times(*s, parent_font_size),
            LengthPercentage::Dimension(LengthValue::Px(s)) => Ok(*s),
            LengthPercentage::Percentage(p) => times(*p, parent_font_size),
            _ => Err(ResolveError::UnsupportedUnit),
        },
        AttributeValue::Text(Some(FontSizeSpec::Absolute(a))) => times(absolute_factor_of(*a), root_font_size),
        AttributeValue::Text(Some(FontSizeSpec::Relative(r))) => times(relative_factor_of(*r), parent_font_size),
        AttributeValue::Float(n) => Ok(*n),
        AttributeValue::Int(n) => times(*n, 1_000_000),
        _ => Err(ResolveError::UnsupportedUnit),
    };
    match size {
        Ok(n) => Some(n),
        Err(_) => None,
    }
}

#[derive(Clone, Copy, Debug, PartialEq, Eq, Structural)]
pub enum GenericFontFamily {
    Serif,
    SansSerif,
    Cursive,
    Fantasy,
    Monospace,
    SystemUi,
    Emoji,
    Math,
    FangSong,
    UiSerif,
    UiSansSerif,
    UiMonospace,
    UiRounded,
    Initial,
    Inherit,
    Unset,
    Default,
    Revert,
    RevertLayer,
}

#[derive(Debug)]
pub enum FontFamily {
    Generic(GenericFontFamily),
    FamilyName(String),
}

pub enum FamilyView {
    Generic(GenericFontFamily),
    FamilyName(Seq<char>),
}

impl View for FontFamily {
    type V = FamilyView;

    open spec fn view(&self) -> FamilyView {
        match self {
            FontFamily::Generic(g) => FamilyView::Generic(*g),
            FontFamily::FamilyName(n) => FamilyView::FamilyName(n@),
        }
    }
}

#[derive(Clone, Copy, Debug, PartialEq, Eq, Structural)]
pub enum FontStyle {
    Normal,
    Italic,
    /// Slanted by an angle, fixed-point degrees.
    Oblique(i64),
}

#[derive(Clone, Copy, Debug, PartialEq, Eq, Structural)]
pub enum FontWeight {
    Normal,
    Bold,
    /// A numeric weight, fixed-point.
    Number(i64),
    Bolder,
    Lighter,
}

#[derive(Clone, Copy, Debug, PartialEq, Eq, Structural)]
pub enum LineHeight {
    Normal,
    /// A multiple of the font size, fixed-point.
    Number(i64),
    Length(LengthValue),
    /// A fraction of the font size, fixed-point.
    Percentage(i64),
}

#[derive(Clone, Copy, Debug, PartialEq, Eq, Structural)]
pub enum FontVariantCaps {
    Normal,
    SmallCaps,
    AllSmallCaps,
    PetiteCaps,
    AllPetiteCaps,
    Unicase,
    TitlingCaps,
}

/// The font properties of a node.
#[derive(Debug)]
pub struct Font {
    pub family: Vec<FontFamily>,
    pub size: ComputedFontSize,
    pub style: FontStyle,
    pub weight: FontWeight,
    /// Width as a fraction of the normal width, fixed-point.
    pub stretch: i64,
    pub line_height: LineHeight,
    pub variant_caps: FontVariantCaps,
}

pub struct FontView {
    pub family: Seq<FamilyView>,
    pub size: ComputedFontSize,
    pub style: FontStyle,
    pub weight: FontWeight,
    pub stretch: i64,
    pub line_height: LineHeight,
    pub variant_caps: FontVariantCaps,
}

impl View for Font {
    type V = FontView;

    open spec fn view(&self) -> FontView {
        FontView {
            family: self.family@.map_values(|f: FontFamily| f@),
            size: self.size,
            style: self.style,
            weight: self.weight,
            stretch: self.stretch,
            line_height: self.line_height,
            variant_caps: self.variant_caps,
        }
    }
}

/// The attributes the font pass watches.
#[derive(Clone, Copy, Debug, PartialEq, Eq, Structural)]
pub enum FontProperty {
    Shorthand,
    Family,
    Size,
    SizeAdjust,
    Stretch,
    Style,
    Variant,
    Weight,
}

/// One watched attribute with its parsed value. The shorthand and
/// `font-size-adjust` are watched but set no field of the record.
#[derive(Debug)]
pub enum FontDeclaration {
    Shorthand,
    Family(Vec<FontFamily>),
    Size(FontSizeSpec),
    SizeAdjust,
    Stretch(i64),
    Style(FontStyle),
    Variant(FontVariantCaps),
    Weight(FontWeight),
}

/// The record of a node without font attributes.
pub open spec fn default_font() -> FontView {
    FontView {
        family: seq![FamilyView::Generic(GenericFontFamily::Default)],
        size: ComputedFontSize(DEFAULT_FONT_SIZE),
        style: FontStyle::Normal,
        weight: FontWeight::Normal,
        stretch: 1000,
        line_height: LineHeight::Normal,
        variant_caps: FontVariantCaps::Normal,
    }
}

/// `f` with one declaration applied; a size that does not resolve leaves the
/// size as it was.
pub open spec fn apply_font_declaration(f: FontView, d: FontDeclaration, viewport: Viewport) -> FontView {
    match d {
        FontDeclaration::Family(v) => FontView { family: v@.map_values(|x: FontFamily| x@), ..f },
        FontDeclaration::Size(v) => match computed_size(v, DEFAULT_FONT_SIZE, viewport) {
            Ok(n) => FontView { size: ComputedFontSize(n), ..f },
            Err(_) => f,
        },
        FontDeclaration::Stretch(v) => FontView { stretch: v, ..f },
        FontDeclaration::Style(v) => FontView { style: v, ..f },
        FontDeclaration::Variant(v) => FontView { variant_caps: v, ..f },
        FontDeclaration::Weight(v) => FontView { weight: v, ..f },
        _ => f,
    }
}

pub open spec fn apply_font_declarations(f: FontView, s: Seq<FontDeclaration>, viewport: Viewport) -> FontView
    decreases s.len(),
{
    if s.len() == 0 {
        f
    } else {
        apply_font_declaration(apply_font_declarations(f, s.drop_last(), viewport), s.last(), viewport)
    }
}

pub open spec fn font_property_of(name: Seq<char>) -> Option<FontProperty> {
    if name == "font"@ {
        Some(FontProperty::Shorthand)
    } else if name == "font-family"@ {
        Some(FontProperty::Family)
    } else if name == "font-size"@ {
        Some(FontProperty::Size)
    } else if name == "font-size-adjust"@ {
        Some(FontProperty::SizeAdjust)
    } else if name == "font-stretch"@ {
        Some(FontProperty::Stretch)
    } else if name == "font-style"@ {
        Some(FontProperty::Style)
    } else if name == "font-variant"@ {
        Some(FontProperty::Variant)
    } else if name == "font-weight"@ {
        Some(FontProperty::Weight)
    } else {
        None
    }
}

/// The attribute names the font pass watches.
pub fn font_attributes() -> (r: Vec<String>)
    ensures
        r@.len() == 8,
        forall|i: int| 0 <= i < 8 ==> font_property_of(#[trigger] r@[i]@) is Some,
{
    vec![
        "font".to_owned(),
        "font-family".to_owned(),
        "font-size".to_owned(),
        "font-size-adjust".to_owned(),
        "font-stretch".to_owned(),
        "font-style".to_owned(),
        "font-variant".to_owned(),
        "font-weight".to_owned(),
    ]
}

/// The property that a watched attribute name stands for; `None` for any
/// other name.
pub fn font_property(name: &String) -> (r: Option<FontProperty>)
    ensures
        r == font_property_of(name@),
{
    if is_literal(name, "font") {
        Some(FontProperty::Shorthand)
    } else if is_literal(name, "font-family") {
        Some(FontProperty::Family)
    } else if is_literal(name, "font-size") {
        Some(FontProperty::Size)
    } else if is_literal(name, "font-size-adjust") {
        Some(FontProperty::SizeAdjust)
    } else if is_literal(name, "font-stretch") {
        Some(FontProperty::Stretch)
    } else if is_literal(name, "font-style") {
        Some(FontProperty::Style)
    } else if is_literal(name, "font-variant") {
        Some(FontProperty::Variant)
    } else if is_literal(name, "font-weight") {
        Some(FontProperty::Weight)
    } else {
        None
    }
}

fn copy_family(f: &FontFamily) -> (r: FontFamily)
    ensures
        r@ == f@,
{
    match f {
        FontFamily::Generic(g) => FontFamily::Generic(*g),
        FontFamily::FamilyName(n) => FontFamily::FamilyName(n.clone()),
    }
}

fn copy_families(v: &Vec<FontFamily>) -> (r: Vec<FontFamily>)
    ensures
        r@.map_values(|x: FontFamily| x@) == v@.map_values(|x: FontFamily| x@),
{
    let mut r: Vec<FontFamily> = Vec::new();
    let mut i: usize = 0;
    while i < v.len()
        invariant
            i <= v@.len(),
            r@.len() == i,
            forall|j: int| 0 <= j < i ==> (#[trigger] r@[j])@ == v@[j]@,
        decreases v@.len() - i,
    {
        r.push(copy_family(&v[i]));
        i = i + 1;
    }
    assert(r@.map_values(|x: FontFamily| x@) =~= v@.map_values(|x: FontFamily| x@));
    r
}

fn same_family(a: &FontFamily, b: &FontFamily) -> (r: bool)
    ensures
        r == (a@ == b@),
{
    match (a, b) {
        (FontFamily::Generic(x), FontFamily::Generic(y)) => *x == *y,
        (FontFamily::FamilyName(x), FontFamily::FamilyName(y)) => *x == *y,
        _ => false,
    }
}

fn same_font(a: &Font, b: &Font) -> (r: bool)
    ensures
        r == (a@ == b@),
{
    if a.family.len() != b.family.len() {
        assert(a@.family.len() != b@.family.len());
        return false;
    }
    let mut i: usize = 0;
    while i < a.family.len()
        invariant
            i <= a.family@.len(),
            a.family@.len() == b.family@.len(),
            forall|j: int| 0 <= j < i ==> (#[trigger] a.family@[j])@ == b.family@[j]@,
        decreases a.family@.len() - i,
    {
        if !same_family(&a.family[i], &b.family[i]) {
            assert(a@.family[i as int] != b@.family[i as int]);
            return false;
        }
        i = i + 1;
    }
    assert(a@.family =~= b@.family);
    a.size == b.size && a.style == b.style && a.weight == b.weight && a.stretch == b.stretch
        && a.line_height == b.line_height && a.variant_caps == b.variant_caps
}

impl Default for FontFamily {
    fn default() -> (r: Self)
        ensures
            r@ == FamilyView::Generic(GenericFontFamily::Default),
    {
        FontFamily::Generic(GenericFontFamily::Default)
    }
}

impl Default for Font {
    fn default() -> (r: Self)
        ensures
            r@ == default_font(),
    {
        Font::new()
    }
}

impl Font {
    /// The record of a new node: the default record with its attributes applied.
    pub fn create(attrs: &Vec<FontDeclaration>, viewport: Viewport) -> (r: Self)
        ensures
            r@ == apply_font_declarations(default_font(), attrs@, viewport),
    {
        let mut r = Font::new();
        r.pass(attrs, viewport);
        r
    }

    pub fn new() -> (r: Self)
        ensures
            r@ == default_font(),
    {
        let r = Font {
            family: vec![FontFamily::Generic(GenericFontFamily::Default)],
            size: ComputedFontSize(DEFAULT_FONT_SIZE),
            style: FontStyle::Normal,
            weight: FontWeight::Normal,
            stretch: 1000,
            line_height: LineHeight::Normal,
            variant_caps: FontVariantCaps::Normal,
        };
        assert(r@.family =~= default_font().family);
        r
    }

    /// Recomputes the record from the node's watched attributes, applied in
    /// order over the default record. Returns whether the record changed.
    pub fn pass(&mut self, attrs: &Vec<FontDeclaration>, viewport: Viewport) -> (changed: bool)
        ensures
            final(self)@ == apply_font_declarations(default_font(), attrs@, viewport),
            changed == (final(self)@ != old(self)@),
    {
        let mut new = Font::new();
        let mut i: usize = 0;
        while i < attrs.len()
            invariant
                i <= attrs@.len(),
                new@ == apply_font_declarations(default_font(), attrs@.subrange(0, i as int), viewport),
            decreases attrs@.len() - i,
        {
            match &attrs[i] {
                FontDeclaration::Family(v) => new.family = copy_families(v),
                FontDeclaration::Size(v) => {
                    match ComputedFontSize(DEFAULT_FONT_SIZE).compute_from(
                        v,
                        ComputedFontSize(DEFAULT_FONT_SIZE),
                        viewport,
                    ) {
                        Ok(n) => new.size = n,
                        Err(_) => {},
                    }
                },
                FontDeclaration::Stretch(v) => new.stretch = *v,
                FontDeclaration::Style(v) => new.style = *v,
                FontDeclaration::Variant(v) => new.variant_caps = *v,
                FontDeclaration::Weight(v) => new.weight = *v,
                _ => {},
            }
            assert(attrs@.subrange(0, i + 1).drop_last() =~= attrs@.subrange(0, i as int));
            i = i + 1;
        }
        assert(attrs@.subrange(0, attrs@.len() as int) =~= attrs@);
        if !same_font(&new, self) {
            *self = new;
            true
        } else {
            false
        }
    }
}

} // verus!

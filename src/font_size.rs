//! The font-size cascade: each node's font size from its `font-size`
//! attribute and its parent's resolved size.
//!
//! Two rules are in use and are kept apart on purpose. The cascade of
//! [`FontSize`] maps keywords to a table of pixel sizes and moves `smaller` /
//! `larger` by two pixels; [`ComputedFontSize`] and attribute parsing scale
//! the default size by a factor and multiply the parent by 0.8 / 1.25.
use vstd::prelude::*;
use crate::units::{
    checked, lp_px, mul_fixed, LengthPercentage, LengthValue, ResolveContext, ResolveError,
    Viewport, DEFAULT_FONT_SIZE, SCALE,
};

verus! {

#[derive(Clone, Copy, Debug, PartialEq, Eq, Structural)]
pub enum AbsoluteFontSize {
    XXSmall,
    XSmall,
    Small,
    Medium,
    Large,
    XLarge,
    XXLarge,
}

#[derive(Clone, Copy, Debug, PartialEq, Eq, Structural)]
pub enum RelativeFontSize {
    Smaller,
    Larger,
}

/// A parsed `font-size` value.
#[derive(Debug)]
pub enum FontSizeSpec {
    Length(LengthPercentage),
    Absolute(AbsoluteFontSize),
    Relative(RelativeFontSize),
}

/// A node's resolved font size in the cascade, fixed-point pixels.
#[derive(Clone, Copy, Debug, PartialEq, Eq, Structural)]
pub struct FontSize(pub i64);

impl Default for FontSize {
    fn default() -> (r: Self)
        ensures
            r.0 == DEFAULT_FONT_SIZE,
    {
        FontSize(DEFAULT_FONT_SIZE)
    }
}

/// Pixel sizes of the absolute keywords in the cascade.
pub open spec fn absolute_size_px(a: AbsoluteFontSize) -> i64 {
    match a {
        AbsoluteFontSize::XXSmall => 9000,
        AbsoluteFontSize::XSmall => 10000,
        AbsoluteFontSize::Small => 13000,
        AbsoluteFontSize::Medium => 16000,
        AbsoluteFontSize::Large => 18000,
        AbsoluteFontSize::XLarge => 24000,
        AbsoluteFontSize::XXLarge => 32000,
    }
}

/// The size the cascade gives a node with value `v` under a parent of size
/// `parent`: `em` and percentages scale the parent, `rem` the default size.
pub open spec fn cascaded_size(v: FontSizeSpec, parent: i64) -> Result<i64, ResolveError> {
    match v {
        FontSizeSpec::Length(LengthPercentage::Dimension(LengthValue::Px(s))) => Ok(s),
        FontSizeSpec::Length(LengthPercentage::Dimension(LengthValue::Em(s))) => checked(
            mul_fixed(s as int, parent as int),
        ),
        FontSizeSpec::Length(LengthPercentage::Dimension(LengthValue::Rem(s))) => checked(
            mul_fixed(s as int, DEFAULT_FONT_SIZE as int),
        ),
        FontSizeSpec::Length(LengthPercentage::Dimension(_)) => Err(ResolveError::UnsupportedUnit),
        FontSizeSpec::Length(LengthPercentage::Percentage(p)) => checked(
            mul_fixed(parent as int, p as int),
        ),
        FontSizeSpec::Length(LengthPercentage::Calc(_)) => Err(ResolveError::UnsupportedFunction),
        FontSizeSpec::Absolute(a) => Ok(absolute_size_px(a)),
        FontSizeSpec::Relative(RelativeFontSize::Smaller) => checked(parent - 2000),
        FontSizeSpec::Relative(RelativeFontSize::Larger) => checked(parent + 2000),
    }
}

/// The parent's size, or the default at the root.
pub open spec fn parent_px(parent: Option<FontSize>) -> i64 {
    match parent {
        Some(p) => p.0,
        None => DEFAULT_FONT_SIZE,
    }
}

/// What one step of the cascade yields from the previous size `old`: the new
/// size and whether it changed. A missing or unparsed value changes nothing.
pub open spec fn cascade_step(old: i64, v: Option<FontSizeSpec>, parent: i64) -> Result<
    (i64, bool),
    ResolveError,
> {
    match v {
        None => Ok((old, false)),
        Some(v) => match cascaded_size(v, parent) {
            Ok(n) => Ok((n, n != old)),
            Err(e) => Err(e),
        },
    }
}

/// `s` fixed-point times `t`, narrowed: the product used by the cascade.
fn product(s: i64, t: i64) -> (r: Result<i64, ResolveError>)
    ensures
        r == checked(mul_fixed(s as int, t as int)),
{
    let v = LengthValue::Rem(s);
    let ctx = ResolveContext { container: 0, font_size: t, viewport: Viewport { width: 0, height: 0 } };
    v.resolve(&ctx)
}

impl FontSize {
    /// One step of the cascade. `value` is the node's parsed `font-size`
    /// (`None` when it is missing or did not parse); `parent` is the parent's
    /// size (`None` at the root). Returns whether the size changed.
    pub fn reduce(&mut self, value: Option<&FontSizeSpec>, parent: Option<&FontSize>) -> (r: Result<
        bool,
        ResolveError,
    >)
        ensures
            ({
                let step = cascade_step(
                    old(self).0,
                    match value {
                        Some(v) => Some(*v),
                        None => None,
                    },
                    parent_px(
                        match parent {
                            Some(p) => Some(*p),
                            None => None,
                        },
                    ),
                );
                match step {
                    Ok((n, changed)) => r == Ok::<bool, ResolveError>(changed) && final(self).0 == n,
                    Err(e) => r == Err::<bool, ResolveError>(e) && *final(self) == *old(self),
                }
            }),
    {
        let v = match value {
            Some(v) => v,
            None => return Ok(false),
        };
        let parent: i64 = match parent {
            Some(p) => p.0,
            None => DEFAULT_FONT_SIZE,
        };
        let new: i64 = match v {
            FontSizeSpec::Length(LengthPercentage::Dimension(l)) => match l {
                LengthValue::Px(s) => *s,
                LengthValue::Em(s) => product(*s, parent)?,
                LengthValue::Rem(s) => product(*s, DEFAULT_FONT_SIZE)?,
                _ => return Err(ResolveError::UnsupportedUnit),
            },
            FontSizeSpec::Length(LengthPercentage::Percentage(p)) => product(parent, *p)?,
            FontSizeSpec::Length(LengthPercentage::Calc(_)) => return Err(
                ResolveError::UnsupportedFunction,
            ),
            FontSizeSpec::Absolute(a) => match a {
                AbsoluteFontSize::XXSmall => 9000,
                AbsoluteFontSize::XSmall => 10000,
                AbsoluteFontSize::Small => 13000,
                AbsoluteFontSize::Medium => 16000,
                AbsoluteFontSize::Large => 18000,
                AbsoluteFontSize::XLarge => 24000,
                AbsoluteFontSize::XXLarge => 32000,
            },
            FontSizeSpec::Relative(RelativeFontSize::Smaller) => {
                if parent < i64::MIN + 2000 {
                    return Err(ResolveError::OutOfRange);
                }
                parent - 2000
            },
            FontSizeSpec::Relative(RelativeFontSize::Larger) => {
                if parent > i64::MAX - 2000 {
                    return Err(ResolveError::OutOfRange);
                }
                parent + 2000
            },
        };
        if self.0 != new {
            self.0 = new;
            Ok(true)
        } else {
            Ok(false)
        }
    }
}

/// A cascade step that yields the size a node already has reports no
/// change; so two values that resolve alike, applied one after the other,
/// change the size at most once.
pub proof fn lemma_same_size_unchanged(old: i64, a: FontSizeSpec, b: FontSizeSpec, parent: i64)
    requires
        cascaded_size(a, parent) is Ok,
        cascaded_size(b, parent) == cascaded_size(a, parent),
    ensures
        ({
            let first = cascade_step(old, Some(a), parent)->Ok_0;
            cascade_step(first.0, Some(b), parent) == Ok::<(i64, bool), ResolveError>(
                (first.0, false),
            )
        }),
{
}

} // verus!

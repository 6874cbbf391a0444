//! Resolution of CSS length expressions into fixed-point pixels.
//!
//! Every length, factor and pixel value is a fixed-point number: the integer
//! `v` stands for `v / SCALE`. A resolved length of `16_000` is sixteen pixels;
//! a percentage of `500` is one half.
use vstd::prelude::*;

verus! {

/// Fixed-point steps per unit.
pub const SCALE: i64 = 1000;

/// The default font size, sixteen pixels.
pub const DEFAULT_FONT_SIZE: i64 = 16000;

/// Why an expression could not be resolved.
#[derive(Clone, Copy, Debug, PartialEq, Eq, Structural)]
pub enum ResolveError {
    /// A unit this engine does not convert.
    UnsupportedUnit,
    /// A math function this engine does not evaluate.
    UnsupportedFunction,
    /// `min()` or `max()` over no arguments.
    EmptyList,
    /// A value that does not fit the fixed-point range.
    OutOfRange,
}

/// Size of the drawing surface in whole pixels.
#[derive(Clone, Copy, Debug, PartialEq, Eq, Structural)]
pub struct Viewport {
    pub width: u32,
    pub height: u32,
}

/// What a length is resolved against.
#[derive(Clone, Copy, Debug, PartialEq, Eq, Structural)]
pub struct ResolveContext {
    /// The size that percentages refer to, fixed-point pixels.
    pub container: i64,
    /// The font size that `rem` refers to, fixed-point pixels.
    pub font_size: i64,
    pub viewport: Viewport,
}

/// A number with a unit; each amount is fixed-point.
#[derive(Clone, Copy, Debug, PartialEq, Eq, Structural)]
pub enum LengthValue {
    Px(i64),
    Em(i64),
    Rem(i64),
    Vw(i64),
    Vh(i64),
    Vmin(i64),
    Vmax(i64),
    /// Any unit without a conversion here.
    Unsupported,
}

/// A length, a percentage of the container, or a `calc()` expression.
#[derive(Debug)]
pub enum LengthPercentage {
    Dimension(LengthValue),
    /// A fraction of the container, fixed-point (`500` is 50%).
    Percentage(i64),
    Calc(Box<Calc>),
}

/// The arithmetic of `calc()`.
#[derive(Debug)]
pub enum Calc {
    Value(Box<LengthPercentage>),
    /// A bare number, taken as pixels.
    Number(i64),
    Sum(Box<Calc>, Box<Calc>),
    /// A fixed-point factor times an expression.
    Product(i64, Box<Calc>),
    Function(Box<MathFunction>),
}

/// The math functions that may appear inside `calc()`.
#[derive(Debug)]
pub enum MathFunction {
    Calc(Calc),
    Min(Vec<Calc>),
    Max(Vec<Calc>),
    Clamp(Calc, Calc, Calc),
    /// Any other function (`round()`, `abs()`, ...).
    Unsupported,
}

/// The width of one border edge.
#[derive(Debug)]
pub enum BorderSideWidth {
    Thin,
    Medium,
    Thick,
    Length(LengthPercentage),
}

pub open spec fn fits(v: int) -> bool {
    i64::MIN <= v <= i64::MAX
}

/// `v` as a resolved value, or `OutOfRange`.
pub open spec fn checked(v: int) -> Result<i64, ResolveError> {
    if fits(v) {
        Ok(v as i64)
    } else {
        Err(ResolveError::OutOfRange)
    }
}

/// Product of two fixed-point numbers, rounded down.
pub open spec fn mul_fixed(a: int, b: int) -> int {
    (a * b) / (SCALE as int)
}

/// `amount` hundredths of `size` whole pixels, fixed-point, rounded down.
pub open spec fn percent_of_pixels(amount: int, size: int) -> int {
    (amount * size) / 100
}

pub open spec fn min_int(a: int, b: int) -> int {
    if a <= b { a } else { b }
}

pub open spec fn max_int(a: int, b: int) -> int {
    if a >= b { a } else { b }
}

pub open spec fn value_px(v: LengthValue, ctx: ResolveContext) -> Result<i64, ResolveError> {
    let w = ctx.viewport.width as int;
    let h = ctx.viewport.height as int;
    match v {
        LengthValue::Px(x) => Ok(x),
        LengthValue::Em(x) => checked(mul_fixed(x as int, DEFAULT_FONT_SIZE as int)),
        LengthValue::Rem(x) => checked(mul_fixed(x as int, ctx.font_size as int)),
        LengthValue::Vw(x) => checked(percent_of_pixels(x as int, w)),
        LengthValue::Vh(x) => checked(percent_of_pixels(x as int, h)),
        LengthValue::Vmin(x) => checked(percent_of_pixels(x as int, min_int(w, h))),
        LengthValue::Vmax(x) => checked(percent_of_pixels(x as int, max_int(w, h))),
        LengthValue::Unsupported => Err(ResolveError::UnsupportedUnit),
    }
}

pub open spec fn lp_px(e: LengthPercentage, ctx: ResolveContext) -> Result<i64, ResolveError>
    decreases e,
{
    match e {
        LengthPercentage::Dimension(v) => value_px(v, ctx),
        LengthPercentage::Percentage(p) => checked(mul_fixed(ctx.container as int, p as int)),
        LengthPercentage::Calc(c) => calc_px(*c, ctx),
    }
}

pub open spec fn calc_px(c: Calc, ctx: ResolveContext) -> Result<i64, ResolveError>
    decreases c,
{
    match c {
        Calc::Value(v) => lp_px(*v, ctx),
        Calc::Number(n) => Ok(n),
        Calc::Sum(a, b) => match calc_px(*a, ctx) {
            Ok(x) => match calc_px(*b, ctx) {
                Ok(y) => checked(x + y),
                Err(e) => Err(e),
            },
            Err(e) => Err(e),
        },
        Calc::Product(k, b) => match calc_px(*b, ctx) {
            Ok(y) => checked(mul_fixed(k as int, y as int)),
            Err(e) => Err(e),
        },
        Calc::Function(f) => function_px(*f, ctx),
    }
}

pub open spec fn function_px(f: MathFunction, ctx: ResolveContext) -> Result<i64, ResolveError>
    decreases f,
{
    match f {
        MathFunction::Calc(c) => calc_px(c, ctx),
        MathFunction::Min(v) => min_px(v@, ctx),
        MathFunction::Max(v) => max_px(v@, ctx),
        MathFunction::Clamp(lo, val, hi) => match calc_px(lo, ctx) {
            Ok(a) => match calc_px(val, ctx) {
                Ok(b) => match calc_px(hi, ctx) {
                    Ok(c) => Ok(max_int(a as int, min_int(b as int, c as int)) as i64),
                    Err(e) => Err(e),
                },
                Err(e) => Err(e),
            },
            Err(e) => Err(e),
        },
        MathFunction::Unsupported => Err(ResolveError::UnsupportedFunction),
    }
}

/// The least of the resolved items; the first error, read from the left.
pub open spec fn min_px(s: Seq<Calc>, ctx: ResolveContext) -> Result<i64, ResolveError>
    decreases s,
{
    if s.len() == 0 {
        Err(ResolveError::EmptyList)
    } else if s.len() == 1 {
        calc_px(s[0], ctx)
    } else {
        match min_px(s.subrange(0, s.len() - 1), ctx) {
            Ok(m) => match calc_px(s[s.len() - 1], ctx) {
                Ok(v) => Ok(min_int(m as int, v as int) as i64),
                Err(e) => Err(e),
            },
            Err(e) => Err(e),
        }
    }
}

/// The greatest of the resolved items; the first error, read from the left.
pub open spec fn max_px(s: Seq<Calc>, ctx: ResolveContext) -> Result<i64, ResolveError>
    decreases s,
{
    if s.len() == 0 {
        Err(ResolveError::EmptyList)
    } else if s.len() == 1 {
        calc_px(s[0], ctx)
    } else {
        match max_px(s.subrange(0, s.len() - 1), ctx) {
            Ok(m) => match calc_px(s[s.len() - 1], ctx) {
                Ok(v) => Ok(max_int(m as int, v as int) as i64),
                Err(e) => Err(e),
            },
            Err(e) => Err(e),
        }
    }
}

pub open spec fn border_width_px(w: BorderSideWidth, ctx: ResolveContext) -> Result<i64, ResolveError> {
    match w {
        BorderSideWidth::Thin => Ok(2000),
        BorderSideWidth::Medium => Ok(4000),
        BorderSideWidth::Thick => Ok(6000),
        BorderSideWidth::Length(l) => lp_px(l, ctx),
    }
}

/// `v` narrowed to `i64`, or `OutOfRange`.
fn narrow(v: i128) -> (r: Result<i64, ResolveError>)
    ensures
        r == checked(v as int),
{
    if v < i64::MIN as i128 || v > i64::MAX as i128 {
        Err(ResolveError::OutOfRange)
    } else {
        Ok(v as i64)
    }
}

/// `(a * b) / d`, rounded down, for a positive `d`.
fn scaled_product(a: i64, b: i64, d: i128) -> (r: Result<i64, ResolveError>)
    requires
        0 < d <= 1000,
    ensures
        r == checked((a * b) / (d as int)),
{
    assert(-0x4000_0000_0000_0000_0000_0000_0000_0000 <= a * b <= 0x4000_0000_0000_0000_0000_0000_0000_0000)
        by (nonlinear_arith)
        requires
            i64::MIN <= a <= i64::MAX,
            i64::MIN <= b <= i64::MAX,
    ;
    let p: i128 = (a as i128) * (b as i128);
    assert(-0x4000_0000_0000_0000_0000_0000_0000_0000 <= (p as int) / (d as int) <= 0x4000_0000_0000_0000_0000_0000_0000_0000)
        by (nonlinear_arith)
        requires
            -0x4000_0000_0000_0000_0000_0000_0000_0000 <= p <= 0x4000_0000_0000_0000_0000_0000_0000_0000,
            0 < d <= 1000,
    ;
    match p.checked_div_euclid(d) {
        Some(q) => narrow(q),
        None => Err(ResolveError::OutOfRange),
    }
}

impl LengthValue {
    pub fn resolve(&self, ctx: &ResolveContext) -> (r: Result<i64, ResolveError>)
        ensures
            r == value_px(*self, *ctx),
    {
        let w = ctx.viewport.width as i64;
        let h = ctx.viewport.height as i64;
        match self {
            LengthValue::Px(x) => Ok(*x),
            LengthValue::Em(x) => scaled_product(*x, DEFAULT_FONT_SIZE, SCALE as i128),
            LengthValue::Rem(x) => scaled_product(*x, ctx.font_size, SCALE as i128),
            LengthValue::Vw(x) => scaled_product(*x, w, 100),
            LengthValue::Vh(x) => scaled_product(*x, h, 100),
            LengthValue::Vmin(x) => scaled_product(*x, if w <= h { w } else { h }, 100),
            LengthValue::Vmax(x) => scaled_product(*x, if w >= h { w } else { h }, 100),
            LengthValue::Unsupported => Err(ResolveError::UnsupportedUnit),
        }
    }
}

impl LengthPercentage {
    pub fn resolve(&self, ctx: &ResolveContext) -> (r: Result<i64, ResolveError>)
        ensures
            r == lp_px(*self, *ctx),
        decreases self,
    {
        match self {
            LengthPercentage::Dimension(v) => v.resolve(ctx),
            LengthPercentage::Percentage(p) => scaled_product(ctx.container, *p, SCALE as i128),
            LengthPercentage::Calc(c) => c.resolve(ctx),
        }
    }
}

impl Calc {
    pub fn resolve(&self, ctx: &ResolveContext) -> (r: Result<i64, ResolveError>)
        ensures
            r == calc_px(*self, *ctx),
        decreases self,
    {
        match self {
            Calc::Value(v) => v.resolve(ctx),
            Calc::Number(n) => Ok(*n),
            Calc::Sum(a, b) => {
                let x = a.resolve(ctx)?;
                let y = b.resolve(ctx)?;
                narrow(x as i128 + y as i128)
            },
            Calc::Product(k, b) => {
                let y = b.resolve(ctx)?;
                scaled_product(*k, y, SCALE as i128)
            },
            Calc::Function(f) => f.resolve(ctx),
        }
    }
}

impl MathFunction {
    pub fn resolve(&self, ctx: &ResolveContext) -> (r: Result<i64, ResolveError>)
        ensures
            r == function_px(*self, *ctx),
        decreases self,
    {
        match self {
            MathFunction::Calc(c) => c.resolve(ctx),
            MathFunction::Min(v) => fold_extreme(v, ctx, true),
            MathFunction::Max(v) => fold_extreme(v, ctx, false),
            MathFunction::Clamp(lo, val, hi) => {
                let a = lo.resolve(ctx)?;
                let b = val.resolve(ctx)?;
                let c = hi.resolve(ctx)?;
                let inner = if b <= c { b } else { c };
                Ok(if a >= inner { a } else { inner })
            },
            MathFunction::Unsupported => Err(ResolveError::UnsupportedFunction),
        }
    }
}

/// An error in the first `k` items is the error of the whole list.
proof fn lemma_prefix_error(s: Seq<Calc>, k: int, ctx: ResolveContext, least: bool)
    requires
        1 <= k <= s.len(),
        (if least { min_px(s.subrange(0, k), ctx) } else { max_px(s.subrange(0, k), ctx) }) is Err,
    ensures
        (if least { min_px(s, ctx) } else { max_px(s, ctx) }) == (if least {
            min_px(s.subrange(0, k), ctx)
        } else {
            max_px(s.subrange(0, k), ctx)
        }),
    decreases s.len(),
{
    if k == s.len() {
        assert(s.subrange(0, k) =~= s);
    } else {
        let t = s.subrange(0, s.len() - 1);
        assert(t.subrange(0, k) =~= s.subrange(0, k));
        lemma_prefix_error(t, k, ctx, least);
    }
}

/// The least (`least`) or greatest item of `v`, resolved.
fn fold_extreme(v: &Vec<Calc>, ctx: &ResolveContext, least: bool) -> (r: Result<i64, ResolveError>)
    ensures
        r == (if least { min_px(v@, *ctx) } else { max_px(v@, *ctx) }),
    decreases v, 0nat,
{
    if v.len() == 0 {
        return Err(ResolveError::EmptyList);
    }
    assert(decreases_to!(v => v@[0]));
    let first = v[0].resolve(ctx);
    proof {
        if first is Err {
            lemma_prefix_error(v@, 1, *ctx, least);
        }
    }
    let mut acc = first?;
    let mut i: usize = 1;
    while i < v.len()
        invariant
            1 <= i <= v@.len(),
            Ok::<i64, ResolveError>(acc) == (if least { min_px(v@.subrange(0, i as int), *ctx) } else {
                max_px(v@.subrange(0, i as int), *ctx)
            }),
        ensures
            i == v@.len(),
        decreases v@.len() - i,
    {
        assert(decreases_to!(v => v@[i as int]));
        let x = v[i].resolve(ctx);
        let ghost s = v@.subrange(0, i + 1);
        assert(s.subrange(0, s.len() - 1) =~= v@.subrange(0, i as int));
        assert(s[s.len() - 1] == v@[i as int]);
        match x {
            Ok(y) => {
                acc = if least {
                    if acc <= y { acc } else { y }
                } else {
                    if acc >= y { acc } else { y }
                };
            },
            Err(e) => {
                proof {
                    lemma_prefix_error(v@, i + 1, *ctx, least);
                }
                return Err(e);
            },
        }
        i = i + 1;
    }
    assert(v@.subrange(0, v@.len() as int) =~= v@);
    Ok(acc)
}

impl BorderSideWidth {
    pub fn resolve(&self, ctx: &ResolveContext) -> (r: Result<i64, ResolveError>)
        ensures
            r == border_width_px(*self, *ctx),
    {
        match self {
            BorderSideWidth::Thin => Ok(2000),
            BorderSideWidth::Medium => Ok(4000),
            BorderSideWidth::Thick => Ok(6000),
            BorderSideWidth::Length(l) => l.resolve(ctx),
        }
    }
}

/// A pixel length resolves to itself, whatever the context.
pub proof fn lemma_px_is_identity(x: i64, ctx: ResolveContext)
    ensures
        lp_px(LengthPercentage::Dimension(LengthValue::Px(x)), ctx) == Ok::<i64, ResolveError>(x),
{
}

/// A percentage between 0% and 100% of a non-negative container resolves to
/// that fraction of the container.
pub proof fn lemma_percentage_of_container(p: i64, ctx: ResolveContext)
    requires
        0 <= ctx.container,
        0 <= p <= SCALE,
    ensures
        lp_px(LengthPercentage::Percentage(p), ctx) == Ok::<i64, ResolveError>(
            mul_fixed(ctx.container as int, p as int) as i64,
        ),
        0 <= mul_fixed(ctx.container as int, p as int) <= ctx.container,
{
    let c = ctx.container as int;
    assert(0 <= c * p <= c * SCALE) by (nonlinear_arith)
        requires
            0 <= c,
            0 <= p <= SCALE,
    ;
    assert(0 <= (c * p) / 1000 <= c) by (nonlinear_arith)
        requires
            0 <= c * p <= c * 1000,
            0 <= c,
    ;
}

/// Viewport units take hundredths of the viewport's width, height, smaller
/// side or larger side.
pub proof fn lemma_viewport_units(x: i64, ctx: ResolveContext)
    ensures
        ({
            let w = ctx.viewport.width as int;
            let h = ctx.viewport.height as int;
            &&& fits(x * w / 100) ==> value_px(LengthValue::Vw(x), ctx) == Ok::<i64, ResolveError>(
                (x * w / 100) as i64,
            )
            &&& fits(x * h / 100) ==> value_px(LengthValue::Vh(x), ctx) == Ok::<i64, ResolveError>(
                (x * h / 100) as i64,
            )
            &&& fits(x * min_int(w, h) / 100) ==> value_px(LengthValue::Vmin(x), ctx) == Ok::<
                i64,
                ResolveError,
            >((x * min_int(w, h) / 100) as i64)
            &&& fits(x * max_int(w, h) / 100) ==> value_px(LengthValue::Vmax(x), ctx) == Ok::<
                i64,
                ResolveError,
            >((x * max_int(w, h) / 100) as i64)
        }),
{
}

/// `clamp(lo, val, hi)` is `max(lo, min(val, hi))`; when `lo` exceeds `hi` it
/// is `lo`, whatever `val` is.
pub proof fn lemma_clamp(lo: Calc, val: Calc, hi: Calc, ctx: ResolveContext)
    requires
        calc_px(lo, ctx) is Ok,
        calc_px(val, ctx) is Ok,
        calc_px(hi, ctx) is Ok,
    ensures
        ({
            let a = calc_px(lo, ctx)->Ok_0 as int;
            let b = calc_px(val, ctx)->Ok_0 as int;
            let c = calc_px(hi, ctx)->Ok_0 as int;
            let r = function_px(MathFunction::Clamp(lo, val, hi), ctx);
            &&& r == Ok::<i64, ResolveError>(max_int(a, min_int(b, c)) as i64)
            &&& a > c ==> r == Ok::<i64, ResolveError>(a as i64)
        }),
{
}

} // verus!

use blitz::units::{
    BorderSideWidth, Calc, LengthPercentage, LengthValue, MathFunction, ResolveContext,
    ResolveError, Viewport,
};

fn ctx(container: i64, font_size: i64, width: u32, height: u32) -> ResolveContext {
    ResolveContext { container, font_size, viewport: Viewport { width, height } }
}

fn px(v: i64) -> Calc {
    Calc::Value(Box::new(LengthPercentage::Dimension(LengthValue::Px(v))))
}

#[test]
fn px_is_identity_in_any_context() {
    for c in [ctx(0, 0, 0, 0), ctx(50_000, 20_000, 800, 600), ctx(-3, 1, 1, 1)] {
        assert_eq!(LengthPercentage::Dimension(LengthValue::Px(12_345)).resolve(&c), Ok(12_345));
    }
}

#[test]
fn percentage_scales_container() {
    let c = ctx(200_000, 16_000, 0, 0);
    assert_eq!(LengthPercentage::Percentage(500).resolve(&c), Ok(100_000));
    assert_eq!(LengthPercentage::Percentage(0).resolve(&c), Ok(0));
    assert_eq!(LengthPercentage::Percentage(1000).resolve(&c), Ok(200_000));
    assert_eq!(LengthPercentage::Percentage(250).resolve(&ctx(0, 0, 0, 0)), Ok(0));
}

#[test]
fn viewport_units() {
    let c = ctx(0, 16_000, 800, 600);
    assert_eq!(LengthValue::Vw(50_000).resolve(&c), Ok(400_000));
    assert_eq!(LengthValue::Vh(50_000).resolve(&c), Ok(300_000));
    assert_eq!(LengthValue::Vmin(10_000).resolve(&c), Ok(60_000));
    assert_eq!(LengthValue::Vmax(10_000).resolve(&c), Ok(80_000));
}

#[test]
fn em_uses_default_and_rem_uses_context() {
    let c = ctx(0, 20_000, 0, 0);
    assert_eq!(LengthValue::Em(2_000).resolve(&c), Ok(32_000));
    assert_eq!(LengthValue::Rem(2_000).resolve(&c), Ok(40_000));
}

#[test]
fn unsupported_unit_is_an_error() {
    let c = ctx(0, 16_000, 0, 0);
    assert_eq!(LengthValue::Unsupported.resolve(&c), Err(ResolveError::UnsupportedUnit));
    let f = MathFunction::Unsupported;
    assert_eq!(f.resolve(&c), Err(ResolveError::UnsupportedFunction));
}

#[test]
fn calc_sum_and_product() {
    let c = ctx(100_000, 16_000, 0, 0);
    let sum = Calc::Sum(
        Box::new(px(10_000)),
        Box::new(Calc::Value(Box::new(LengthPercentage::Percentage(500)))),
    );
    assert_eq!(sum.resolve(&c), Ok(60_000));
    let product = Calc::Product(1_500, Box::new(px(10_000)));
    assert_eq!(product.resolve(&c), Ok(15_000));
    assert_eq!(Calc::Number(7).resolve(&c), Ok(7));
}

#[test]
fn calc_min_and_max() {
    let c = ctx(0, 16_000, 0, 0);
    let min = MathFunction::Min(vec![px(30_000), px(10_000), px(20_000)]);
    assert_eq!(min.resolve(&c), Ok(10_000));
    let max = MathFunction::Max(vec![px(30_000), px(10_000), px(20_000)]);
    assert_eq!(max.resolve(&c), Ok(30_000));
    assert_eq!(MathFunction::Min(vec![]).resolve(&c), Err(ResolveError::EmptyList));
    let bad = MathFunction::Max(vec![
        px(1),
        Calc::Value(Box::new(LengthPercentage::Dimension(LengthValue::Unsupported))),
    ]);
    assert_eq!(bad.resolve(&c), Err(ResolveError::UnsupportedUnit));
}

#[test]
fn clamp_bounds_value() {
    let c = ctx(0, 16_000, 0, 0);
    let inside = MathFunction::Clamp(px(10_000), px(15_000), px(20_000));
    assert_eq!(inside.resolve(&c), Ok(15_000));
    let below = MathFunction::Clamp(px(10_000), px(5_000), px(20_000));
    assert_eq!(below.resolve(&c), Ok(10_000));
    let above = MathFunction::Clamp(px(10_000), px(25_000), px(20_000));
    assert_eq!(above.resolve(&c), Ok(20_000));
    // a lower bound above the upper bound wins, whatever the value
    let crossed = MathFunction::Clamp(px(30_000), px(5_000), px(20_000));
    assert_eq!(crossed.resolve(&c), Ok(30_000));
}

#[test]
fn border_keywords() {
    let c = ctx(0, 16_000, 0, 0);
    assert_eq!(BorderSideWidth::Thin.resolve(&c), Ok(2_000));
    assert_eq!(BorderSideWidth::Medium.resolve(&c), Ok(4_000));
    assert_eq!(BorderSideWidth::Thick.resolve(&c), Ok(6_000));
    let l = BorderSideWidth::Length(LengthPercentage::Dimension(LengthValue::Px(3_000)));
    assert_eq!(l.resolve(&c), Ok(3_000));
}

#[test]
fn out_of_range_is_an_error() {
    let c = ctx(0, 16_000, 0, 0);
    let sum = Calc::Sum(Box::new(Calc::Number(i64::MAX)), Box::new(Calc::Number(1)));
    assert_eq!(sum.resolve(&c), Err(ResolveError::OutOfRange));
    assert_eq!(LengthValue::Em(i64::MAX).resolve(&c), Err(ResolveError::OutOfRange));
}

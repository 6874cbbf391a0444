//! Draw geometry of a box: a rounded rectangle inset by half of each border
//! width, so that a stroke centred on its outline stays inside the box.
use vstd::prelude::*;
use crate::text_style::Color;
use crate::units::{
    border_width_px, fits, lp_px, BorderSideWidth, LengthPercentage, ResolveContext, ResolveError,
    Viewport,
};

verus! {

/// Width of the focus ring, fixed-point pixels.
pub const FOCUS_BORDER_WIDTH: i64 = 6000;

#[derive(Clone, Copy, Debug, PartialEq, Eq, Structural)]
pub struct Point {
    pub x: i64,
    pub y: i64,
}

#[derive(Clone, Copy, Debug, PartialEq, Eq, Structural)]
pub struct Size {
    pub width: i64,
    pub height: i64,
}

/// A box from the layout engine: its offset from the parent and its size.
#[derive(Clone, Copy, Debug, PartialEq, Eq, Structural)]
pub struct LayoutBox {
    pub location: Point,
    pub size: Size,
}

/// Corner radii, clockwise from the top left.
#[derive(Clone, Copy, Debug, PartialEq, Eq, Structural)]
pub struct Radii {
    pub top_left: i64,
    pub top_right: i64,
    pub bottom_right: i64,
    pub bottom_left: i64,
}

#[derive(Clone, Copy, Debug, PartialEq, Eq, Structural)]
pub struct RoundedRect {
    pub x0: i64,
    pub y0: i64,
    pub x1: i64,
    pub y1: i64,
    pub radii: Radii,
}

#[derive(Clone, Copy, Debug, PartialEq, Eq, Structural)]
pub enum Axis {
    X,
    Y,
    /// The smaller side.
    Min,
    /// The larger side.
    Max,
}

#[derive(Debug)]
pub struct BorderWidths {
    pub top: BorderSideWidth,
    pub right: BorderSideWidth,
    pub bottom: BorderSideWidth,
    pub left: BorderSideWidth,
}

#[derive(Debug)]
pub struct BorderRadii {
    pub top_left: LengthPercentage,
    pub top_right: LengthPercentage,
    pub bottom_right: LengthPercentage,
    pub bottom_left: LengthPercentage,
}

#[derive(Clone, Copy, Debug, PartialEq, Eq, Structural)]
pub struct BorderColors {
    pub top: Color,
    pub right: Color,
    pub bottom: Color,
    pub left: Color,
}

/// A node's border style.
#[derive(Debug)]
pub struct Border {
    pub colors: BorderColors,
    pub width: BorderWidths,
    pub radius: BorderRadii,
}

pub open spec fn axis_size_of(axis: Axis, rect: Size) -> i64 {
    match axis {
        Axis::X => rect.width,
        Axis::Y => rect.height,
        Axis::Min => if rect.width <= rect.height { rect.width } else { rect.height },
        Axis::Max => if rect.width >= rect.height { rect.width } else { rect.height },
    }
}

/// The extent of `rect` along `axis`.
pub fn axis_size(axis: Axis, rect: &Size) -> (r: i64)
    ensures
        r == axis_size_of(axis, *rect),
{
    match axis {
        Axis::X => rect.width,
        Axis::Y => rect.height,
        Axis::Min => if rect.width <= rect.height { rect.width } else { rect.height },
        Axis::Max => if rect.width >= rect.height { rect.width } else { rect.height },
    }
}

/// What borders and radii of a box of size `size` are resolved against: the
/// box's smaller side as container.
pub open spec fn border_context(size: Size, font_size: i64, viewport: Viewport) -> ResolveContext {
    ResolveContext { container: axis_size_of(Axis::Min, size), font_size, viewport }
}

/// An edge's width: the focus ring's when focused, else the resolved border.
pub open spec fn edge_px(w: BorderSideWidth, ctx: ResolveContext, focused: bool) -> Result<
    i64,
    ResolveError,
> {
    if focused {
        Ok(FOCUS_BORDER_WIDTH)
    } else {
        border_width_px(w, ctx)
    }
}

/// The geometry of a box at `location` (its absolute position): edges and
/// radii are resolved left, right, top, bottom, then the corners clockwise
/// from the top left, and the first error among them is the result.
pub open spec fn shape_of(
    size: Size,
    border: Border,
    font_size: i64,
    focused: bool,
    viewport: Viewport,
    location: Point,
) -> Result<RoundedRect, ResolveError> {
    let ctx = border_context(size, font_size, viewport);
    let l = edge_px(border.width.left, ctx, focused);
    let r = edge_px(border.width.right, ctx, focused);
    let t = edge_px(border.width.top, ctx, focused);
    let b = edge_px(border.width.bottom, ctx, focused);
    let tl = lp_px(border.radius.top_left, ctx);
    let tr = lp_px(border.radius.top_right, ctx);
    let br = lp_px(border.radius.bottom_right, ctx);
    let bl = lp_px(border.radius.bottom_left, ctx);
    if l is Err {
        Err(l->Err_0)
    } else if r is Err {
        Err(r->Err_0)
    } else if t is Err {
        Err(t->Err_0)
    } else if b is Err {
        Err(b->Err_0)
    } else if tl is Err {
        Err(tl->Err_0)
    } else if tr is Err {
        Err(tr->Err_0)
    } else if br is Err {
        Err(br->Err_0)
    } else if bl is Err {
        Err(bl->Err_0)
    } else {
        let x0 = location.x + l->Ok_0 / 2;
        let y0 = location.y + t->Ok_0 / 2;
        let x1 = location.x + size.width - r->Ok_0 / 2;
        let y1 = location.y + size.height - b->Ok_0 / 2;
        if fits(x0) && fits(y0) && fits(x1) && fits(y1) {
            Ok(
                RoundedRect {
                    x0: x0 as i64,
                    y0: y0 as i64,
                    x1: x1 as i64,
                    y1: y1 as i64,
                    radii: Radii {
                        top_left: tl->Ok_0,
                        top_right: tr->Ok_0,
                        bottom_right: br->Ok_0,
                        bottom_left: bl->Ok_0,
                    },
                },
            )
        } else {
            Err(ResolveError::OutOfRange)
        }
    }
}

fn edge_width(w: &BorderSideWidth, ctx: &ResolveContext, focused: bool) -> (r: Result<i64, ResolveError>)
    ensures
        r == edge_px(*w, *ctx, focused),
{
    if focused {
        Ok(FOCUS_BORDER_WIDTH)
    } else {
        w.resolve(ctx)
    }
}

/// `a + b - c / 2`, narrowed, with `c / 2` rounded down.
fn offset_by_half(a: i64, b: i64, c: i64, add: bool) -> (r: Result<i64, ResolveError>)
    ensures
        r == (if add {
            crate::units::checked(a + b + c / 2)
        } else {
            crate::units::checked(a + b - c / 2)
        }),
{
    let half: i128 = (c as i128).checked_div_euclid(2).unwrap();
    let v: i128 = if add { a as i128 + b as i128 + half } else { a as i128 + b as i128 - half };
    if v < i64::MIN as i128 || v > i64::MAX as i128 {
        Err(ResolveError::OutOfRange)
    } else {
        Ok(v as i64)
    }
}

/// The rounded rectangle drawn for a box of `size` at `location`, with its
/// border inset by half of each edge's width.
pub fn get_shape(
    size: &Size,
    border: &Border,
    font_size: i64,
    focused: bool,
    viewport: &Viewport,
    location: Point,
) -> (r: Result<RoundedRect, ResolveError>)
    ensures
        r == shape_of(*size, *border, font_size, focused, *viewport, location),
{
    let ctx = ResolveContext {
        container: axis_size(Axis::Min, size),
        font_size,
        viewport: *viewport,
    };
    let l = edge_width(&border.width.left, &ctx, focused)?;
    let r = edge_width(&border.width.right, &ctx, focused)?;
    let t = edge_width(&border.width.top, &ctx, focused)?;
    let b = edge_width(&border.width.bottom, &ctx, focused)?;
    let tl = border.radius.top_left.resolve(&ctx)?;
    let tr = border.radius.top_right.resolve(&ctx)?;
    let br = border.radius.bottom_right.resolve(&ctx)?;
    let bl = border.radius.bottom_left.resolve(&ctx)?;
    let x0 = offset_by_half(location.x, 0, l, true);
    let y0 = offset_by_half(location.y, 0, t, true);
    let x1 = offset_by_half(location.x, size.width, r, false);
    let y1 = offset_by_half(location.y, size.height, b, false);
    match (x0, y0, x1, y1) {
        (Ok(x0), Ok(y0), Ok(x1), Ok(y1)) => Ok(
            RoundedRect {
                x0,
                y0,
                x1,
                y1,
                radii: Radii { top_left: tl, top_right: tr, bottom_right: br, bottom_left: bl },
            },
        ),
        _ => Err(ResolveError::OutOfRange),
    }
}

} // verus!

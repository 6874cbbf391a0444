use blitz::geometry::{
    axis_size, get_shape, Axis, Border, BorderColors, BorderRadii, BorderWidths, LayoutBox, Point,
    Radii, RoundedRect, Size,
};
use blitz::render::{
    get_abs_pos, render, Node, NodeKind, NodeStyle, PaintCommand, PaintError, Tree,
};
use blitz::text_style::Color;
use blitz::units::{BorderSideWidth, LengthPercentage, LengthValue, ResolveError, Viewport};

const VP: Viewport = Viewport { width: 800, height: 600 };
const RED: Color = Color::Rgba(255, 0, 0, 255);
const BLUE: Color = Color::Rgba(0, 0, 255, 255);

fn px(v: i64) -> LengthPercentage {
    LengthPercentage::Dimension(LengthValue::Px(v))
}

fn border(width: i64, radius: i64) -> Border {
    let w = || BorderSideWidth::Length(px(width));
    Border {
        colors: BorderColors { top: RED, right: RED, bottom: RED, left: RED },
        width: BorderWidths { top: w(), right: w(), bottom: w(), left: w() },
        radius: BorderRadii {
            top_left: px(radius),
            top_right: px(radius),
            bottom_right: px(radius),
            bottom_left: px(radius),
        },
    }
}

fn style(focused: bool) -> NodeStyle {
    NodeStyle { border: border(2_000, 0), background: BLUE, foreground: RED, font_size: 16_000, focused }
}

fn node(kind: NodeKind, parent: Option<usize>, children: Vec<usize>, at: (i64, i64), size: (i64, i64)) -> Node {
    Node {
        kind,
        parent,
        children,
        layout: Some(LayoutBox {
            location: Point { x: at.0, y: at.1 },
            size: Size { width: size.0, height: size.1 },
        }),
        style: style(false),
    }
}

fn rect(x0: i64, y0: i64, x1: i64, y1: i64, r: i64) -> RoundedRect {
    RoundedRect {
        x0,
        y0,
        x1,
        y1,
        radii: Radii { top_left: r, top_right: r, bottom_right: r, bottom_left: r },
    }
}

#[test]
fn uniform_border_insets_by_half() {
    let size = Size { width: 100_000, height: 100_000 };
    let shape = get_shape(&size, &border(10_000, 0), 16_000, false, &VP, Point { x: 0, y: 0 });
    assert_eq!(shape, Ok(rect(5_000, 5_000, 95_000, 95_000, 0)));
}

#[test]
fn focus_replaces_border_width() {
    let size = Size { width: 100_000, height: 50_000 };
    let b = Border { radius: BorderRadii {
        top_left: LengthPercentage::Percentage(100),
        top_right: px(1_000),
        bottom_right: px(1_000),
        bottom_left: px(1_000),
    }, ..border(10_000, 0) };
    let shape = get_shape(&size, &b, 16_000, true, &VP, Point { x: 10_000, y: 20_000 }).unwrap();
    assert_eq!((shape.x0, shape.y0, shape.x1, shape.y1), (13_000, 23_000, 107_000, 67_000));
    // percentages of radii refer to the smaller side
    assert_eq!(shape.radii.top_left, 5_000);
}

#[test]
fn oversized_border_gives_inverted_rect() {
    let size = Size { width: 4_000, height: 4_000 };
    let shape = get_shape(&size, &border(10_000, 0), 16_000, false, &VP, Point { x: 0, y: 0 });
    assert_eq!(shape, Ok(rect(5_000, 5_000, -1_000, -1_000, 0)));
}

#[test]
fn shape_reports_unsupported_border() {
    let size = Size { width: 4_000, height: 4_000 };
    let mut b = border(1_000, 0);
    b.width.right = BorderSideWidth::Length(LengthPercentage::Dimension(LengthValue::Unsupported));
    let shape = get_shape(&size, &b, 16_000, false, &VP, Point { x: 0, y: 0 });
    assert_eq!(shape, Err(ResolveError::UnsupportedUnit));
}

#[test]
fn axis_sizes() {
    let s = Size { width: 3, height: 7 };
    assert_eq!(axis_size(Axis::X, &s), 3);
    assert_eq!(axis_size(Axis::Y, &s), 7);
    assert_eq!(axis_size(Axis::Min, &s), 3);
    assert_eq!(axis_size(Axis::Max, &s), 7);
}

#[test]
fn focused_element_paints_two_rings_and_fill() {
    let mut root = node(NodeKind::Element, None, vec![], (0, 0), (100_000, 100_000));
    root.style.focused = true;
    let tree = Tree { nodes: vec![root] };
    let cmds = render(&tree, &VP).unwrap();
    let outer = rect(3_000, 3_000, 97_000, 97_000, 0);
    assert_eq!(cmds.len(), 4);
    assert_eq!(
        cmds[1],
        PaintCommand::Stroke { width: 3_000, color: Color::Rgba(255, 255, 255, 255), shape: outer }
    );
    assert_eq!(cmds[2], PaintCommand::Stroke { width: 3_000, color: Color::Rgba(0, 0, 0, 255), shape: outer });
    assert_eq!(cmds[3], PaintCommand::Fill { color: BLUE, shape: rect(6_000, 6_000, 94_000, 94_000, 0) });
}

#[test]
fn walk_paints_parents_before_children() {
    let tree = Tree {
        nodes: vec![
            node(NodeKind::Element, None, vec![1, 3], (0, 0), (200_000, 100_000)),
            node(NodeKind::Element, Some(0), vec![2], (10_000, 10_000), (50_000, 50_000)),
            node(NodeKind::Text("hi".to_string()), Some(1), vec![], (1_000, 2_000), (10_000, 10_000)),
            node(NodeKind::Other, Some(0), vec![], (0, 0), (0, 0)),
        ],
    };
    let cmds = render(&tree, &VP).unwrap();
    assert_eq!(cmds.len(), 6);
    assert_eq!(cmds[0], PaintCommand::Fill { color: Color::Rgba(255, 255, 255, 255), shape: rect(0, 0, 200_000, 100_000, 0) });
    assert_eq!(cmds[1], PaintCommand::Stroke { width: 2_000, color: RED, shape: rect(1_000, 1_000, 199_000, 99_000, 0) });
    assert_eq!(cmds[2], PaintCommand::Fill { color: BLUE, shape: rect(1_000, 1_000, 199_000, 99_000, 0) });
    assert_eq!(cmds[3], PaintCommand::Stroke { width: 2_000, color: RED, shape: rect(11_000, 11_000, 59_000, 59_000, 0) });
    assert_eq!(cmds[5], PaintCommand::Text { node: 2, x: 11_000, y: 28_000, size: 16_000, color: RED });
}

#[test]
fn walk_errors() {
    let mut missing = node(NodeKind::Element, Some(0), vec![], (0, 0), (1, 1));
    missing.layout = None;
    let tree = Tree { nodes: vec![node(NodeKind::Element, None, vec![1], (0, 0), (1, 1)), missing] };
    assert_eq!(render(&tree, &VP), Err(PaintError::MissingLayout));
    let cyclic = Tree { nodes: vec![node(NodeKind::Element, None, vec![0], (0, 0), (1, 1))] };
    assert_eq!(render(&cyclic, &VP), Err(PaintError::MalformedTree));
    assert_eq!(render(&Tree { nodes: vec![] }, &VP), Err(PaintError::MalformedTree));
}

#[test]
fn absolute_position_sums_ancestors() {
    let tree = Tree {
        nodes: vec![
            node(NodeKind::Element, None, vec![1], (0, 0), (0, 0)),
            node(NodeKind::Element, Some(0), vec![2], (10_000, 10_000), (0, 0)),
            node(NodeKind::Element, Some(1), vec![3], (5_000, 0), (0, 0)),
            node(NodeKind::Element, Some(2), vec![], (0, 5_000), (0, 0)),
        ],
    };
    let own = tree.nodes[3].layout.unwrap();
    assert_eq!(get_abs_pos(&own, &tree, 3), Ok(Point { x: 15_000, y: 15_000 }));
    let mut broken = tree;
    broken.nodes[2].layout = None;
    assert_eq!(get_abs_pos(&own, &broken, 3), Err(PaintError::MissingLayout));
}

#[test]
fn walk_reports_unresolved_style() {
    let mut root = node(NodeKind::Element, None, vec![], (0, 0), (10_000, 10_000));
    root.style.border.width.top = BorderSideWidth::Length(LengthPercentage::Dimension(LengthValue::Unsupported));
    let tree = Tree { nodes: vec![root] };
    assert_eq!(render(&tree, &VP), Err(PaintError::Resolve(ResolveError::UnsupportedUnit)));
}

//! The paint walker: one depth-first, document-order walk of the node tree
//! that turns each node into paint commands, parents before children.
use vstd::prelude::*;
use crate::geometry::{
    border_context, get_shape, shape_of, Border, LayoutBox, Point, Radii, RoundedRect, Size,
    FOCUS_BORDER_WIDTH,
};
use crate::text_style::Color;
use crate::units::{border_width_px, fits, ResolveContext, ResolveError, Viewport, DEFAULT_FONT_SIZE};

verus! {

pub enum NodeKind {
    Element,
    Text(String),
    Other,
}

/// The resolved style a node is painted with.
pub struct NodeStyle {
    pub border: Border,
    pub background: Color,
    pub foreground: Color,
    /// The node's computed font size, fixed-point pixels.
    pub font_size: i64,
    pub focused: bool,
}

/// A node of the tree. Children come after their parent in the tree's list.
pub struct Node {
    pub kind: NodeKind,
    pub parent: Option<usize>,
    pub children: Vec<usize>,
    pub layout: Option<LayoutBox>,
    pub style: NodeStyle,
}

/// The nodes by index; the root is node 0.
pub struct Tree {
    pub nodes: Vec<Node>,
}

#[derive(Clone, Copy, Debug, PartialEq, Eq, Structural)]
pub enum PaintCommand {
    Fill { color: Color, shape: RoundedRect },
    Stroke { width: i64, color: Color, shape: RoundedRect },
    /// The text of node `node`, with its baseline at `(x, y)`.
    Text { node: usize, x: i64, y: i64, size: i64, color: Color },
}

#[derive(Clone, Copy, Debug, PartialEq, Eq, Structural)]
pub enum PaintError {
    /// A node that is painted or passed has no layout box.
    MissingLayout,
    /// A node index out of bounds, or a child that does not come after its parent.
    MalformedTree,
    Resolve(ResolveError),
}

pub open spec fn white() -> Color {
    Color::Rgba(255, 255, 255, 255)
}

pub open spec fn black() -> Color {
    Color::Rgba(0, 0, 0, 255)
}

/// `r` moved inward by `d` on every side, keeping its radii.
pub open spec fn inset(r: RoundedRect, d: int) -> Result<RoundedRect, ResolveError> {
    if fits(r.x0 + d) && fits(r.y0 + d) && fits(r.x1 - d) && fits(r.y1 - d) {
        Ok(
            RoundedRect {
                x0: (r.x0 + d) as i64,
                y0: (r.y0 + d) as i64,
                x1: (r.x1 - d) as i64,
                y1: (r.y1 - d) as i64,
                radii: r.radii,
            },
        )
    } else {
        Err(ResolveError::OutOfRange)
    }
}

/// The commands of an element at `pos`: when focused, a white ring, a black
/// ring over the same outline and the background inside the ring; otherwise
/// the border stroke and the background.
pub open spec fn element_paint(st: NodeStyle, size: Size, pos: Point, viewport: Viewport) -> Result<
    Seq<PaintCommand>,
    PaintError,
> {
    match shape_of(size, st.border, st.font_size, st.focused, viewport, pos) {
        Err(e) => Err(PaintError::Resolve(e)),
        Ok(shape) => if st.focused {
            match inset(shape, FOCUS_BORDER_WIDTH / 2) {
                Err(e) => Err(PaintError::Resolve(e)),
                Ok(smaller) => Ok(
                    seq![
                        PaintCommand::Stroke { width: (FOCUS_BORDER_WIDTH / 2) as i64, color: white(), shape },
                        PaintCommand::Stroke { width: (FOCUS_BORDER_WIDTH / 2) as i64, color: black(), shape },
                        PaintCommand::Fill { color: st.background, shape: smaller },
                    ],
                ),
            }
        } else {
            match border_width_px(st.border.width.top, border_context(size, st.font_size, viewport)) {
                Err(e) => Err(PaintError::Resolve(e)),
                Ok(w) => Ok(
                    seq![
                        PaintCommand::Stroke { width: w, color: st.border.colors.top, shape },
                        PaintCommand::Fill { color: st.background, shape },
                    ],
                ),
            }
        },
    }
}

/// The commands of node `id` alone, at its absolute position `pos`. Text is
/// set at the default size, one line below `pos`.
pub open spec fn node_paint(id: usize, n: Node, size: Size, pos: Point, viewport: Viewport) -> Result<
    Seq<PaintCommand>,
    PaintError,
> {
    match n.kind {
        NodeKind::Text(_) => if fits(pos.y + DEFAULT_FONT_SIZE) {
            Ok(
                seq![
                    PaintCommand::Text {
                        node: id,
                        x: pos.x,
                        y: (pos.y + DEFAULT_FONT_SIZE) as i64,
                        size: DEFAULT_FONT_SIZE,
                        color: n.style.foreground,
                    },
                ],
            )
        } else {
            Err(PaintError::Resolve(ResolveError::OutOfRange))
        },
        NodeKind::Element => element_paint(n.style, size, pos, viewport),
        NodeKind::Other => Ok(Seq::empty()),
    }
}

/// `loc` moved by `b`'s offset.
pub open spec fn moved(loc: Point, b: LayoutBox) -> Result<Point, PaintError> {
    if fits(loc.x + b.location.x) && fits(loc.y + b.location.y) {
        Ok(Point { x: (loc.x + b.location.x) as i64, y: (loc.y + b.location.y) as i64 })
    } else {
        Err(PaintError::Resolve(ResolveError::OutOfRange))
    }
}

/// The commands of the subtree at `id`, whose parent's position is `loc`:
/// the node's own, then each child's subtree in order.
pub open spec fn paint_subtree(nodes: Seq<Node>, id: int, loc: Point, viewport: Viewport) -> Result<
    Seq<PaintCommand>,
    PaintError,
>
    decreases nodes.len() - id, 1int,
{
    if !(0 <= id < nodes.len()) {
        Err(PaintError::MalformedTree)
    } else {
        let n = nodes[id];
        match n.layout {
            None => Err(PaintError::MissingLayout),
            Some(b) => match moved(loc, b) {
                Err(e) => Err(e),
                Ok(pos) => match node_paint(id as usize, n, b.size, pos, viewport) {
                    Err(e) => Err(e),
                    Ok(own) => if n.kind is Element {
                        match paint_children(nodes, id, n.children@, pos, viewport) {
                            Err(e) => Err(e),
                            Ok(rest) => Ok(own + rest),
                        }
                    } else {
                        Ok(own)
                    },
                },
            },
        }
    }
}

/// The subtrees of the children `cs` of node `parent`, one after another.
pub open spec fn paint_children(
    nodes: Seq<Node>,
    parent: int,
    cs: Seq<usize>,
    pos: Point,
    viewport: Viewport,
) -> Result<Seq<PaintCommand>, PaintError>
    decreases nodes.len() - parent, 0int, cs.len(),
{
    if cs.len() == 0 {
        Ok(Seq::empty())
    } else {
        match paint_children(nodes, parent, cs.drop_last(), pos, viewport) {
            Err(e) => Err(e),
            Ok(a) => {
                let c = cs.last() as int;
                if parent < c < nodes.len() {
                    match paint_subtree(nodes, c, pos, viewport) {
                        Err(e) => Err(e),
                        Ok(b) => Ok(a + b),
                    }
                } else {
                    Err(PaintError::MalformedTree)
                }
            },
        }
    }
}

/// The whole scene: the root's box filled white, then the tree from the root.
pub open spec fn scene_of(nodes: Seq<Node>, viewport: Viewport) -> Result<Seq<PaintCommand>, PaintError> {
    if nodes.len() == 0 {
        Err(PaintError::MalformedTree)
    } else {
        match nodes[0].layout {
            None => Err(PaintError::MissingLayout),
            Some(b) => {
                let x1 = b.location.x + b.size.width;
                let y1 = b.location.y + b.size.height;
                if !(fits(x1) && fits(y1)) {
                    Err(PaintError::Resolve(ResolveError::OutOfRange))
                } else {
                    let page = RoundedRect {
                        x0: b.location.x,
                        y0: b.location.y,
                        x1: x1 as i64,
                        y1: y1 as i64,
                        radii: Radii { top_left: 0, top_right: 0, bottom_right: 0, bottom_left: 0 },
                    };
                    match paint_subtree(nodes, 0, Point { x: 0, y: 0 }, viewport) {
                        Err(e) => Err(e),
                        Ok(cmds) => Ok(seq![PaintCommand::Fill { color: white(), shape: page }] + cmds),
                    }
                }
            },
        }
    }
}

/// The position of node `current`, starting from `acc`, plus the offsets of
/// its ancestors below the root.
pub open spec fn abs_pos_from(nodes: Seq<Node>, current: int, acc: Point) -> Result<Point, PaintError>
    decreases current,
{
    if !(0 <= current < nodes.len()) {
        Err(PaintError::MalformedTree)
    } else {
        match nodes[current].parent {
            None => Ok(acc),
            Some(p) => if p == 0 {
                Ok(acc)
            } else if p >= current {
                Err(PaintError::MalformedTree)
            } else {
                match nodes[p as int].layout {
                    None => Err(PaintError::MissingLayout),
                    Some(b) => match moved(acc, b) {
                        Err(e) => Err(e),
                        Ok(next) => abs_pos_from(nodes, p as int, next),
                    },
                }
            },
        }
    }
}

fn move_by(loc: Point, b: &LayoutBox) -> (r: Result<Point, PaintError>)
    ensures
        r == moved(loc, *b),
{
    let x = loc.x as i128 + b.location.x as i128;
    let y = loc.y as i128 + b.location.y as i128;
    if x < i64::MIN as i128 || x > i64::MAX as i128 || y < i64::MIN as i128 || y > i64::MAX as i128 {
        Err(PaintError::Resolve(ResolveError::OutOfRange))
    } else {
        Ok(Point { x: x as i64, y: y as i64 })
    }
}

fn shift(v: i64, d: i64) -> (r: Option<i64>)
    ensures
        r == (if fits(v + d) { Some((v + d) as i64) } else { None::<i64> }),
{
    let s = v as i128 + d as i128;
    if s < i64::MIN as i128 || s > i64::MAX as i128 {
        None
    } else {
        Some(s as i64)
    }
}

fn inset_by(r: &RoundedRect, d: i64) -> (res: Result<RoundedRect, ResolveError>)
    requires
        0 <= d <= 1_000_000,
    ensures
        res == inset(*r, d as int),
{
    match (shift(r.x0, d), shift(r.y0, d), shift(r.x1, -d), shift(r.y1, -d)) {
        (Some(x0), Some(y0), Some(x1), Some(y1)) => Ok(RoundedRect { x0, y0, x1, y1, radii: r.radii }),
        _ => Err(ResolveError::OutOfRange),
    }
}

fn paint_element(st: &NodeStyle, size: &Size, pos: Point, viewport: &Viewport, out: &mut Vec<PaintCommand>) -> (r:
    Result<(), PaintError>)
    ensures
        match element_paint(*st, *size, pos, *viewport) {
            Ok(c) => r is Ok && final(out)@ == old(out)@ + c,
            Err(e) => r == Err::<(), PaintError>(e),
        },
{
    let shape = match get_shape(size, &st.border, st.font_size, st.focused, viewport, pos) {
        Ok(s) => s,
        Err(e) => return Err(PaintError::Resolve(e)),
    };
    if st.focused {
        let half = FOCUS_BORDER_WIDTH / 2;
        let smaller = match inset_by(&shape, half) {
            Ok(s) => s,
            Err(e) => return Err(PaintError::Resolve(e)),
        };
        out.push(PaintCommand::Stroke { width: half, color: Color::Rgba(255, 255, 255, 255), shape });
        out.push(PaintCommand::Stroke { width: half, color: Color::Rgba(0, 0, 0, 255), shape });
        out.push(PaintCommand::Fill { color: st.background, shape: smaller });
        assert(final(out)@ =~= old(out)@ + element_paint(*st, *size, pos, *viewport)->Ok_0);
    } else {
        let ctx = ResolveContext {
            container: crate::geometry::axis_size(crate::geometry::Axis::Min, size),
            font_size: st.font_size,
            viewport: *viewport,
        };
        let w = match st.border.width.top.resolve(&ctx) {
            Ok(w) => w,
            Err(e) => return Err(PaintError::Resolve(e)),
        };
        out.push(PaintCommand::Stroke { width: w, color: st.border.colors.top, shape });
        out.push(PaintCommand::Fill { color: st.background, shape });
        assert(final(out)@ =~= old(out)@ + element_paint(*st, *size, pos, *viewport)->Ok_0);
    }
    Ok(())
}

/// An error among the first `k` children is the error of them all.
proof fn lemma_children_prefix_error(
    nodes: Seq<Node>,
    parent: int,
    cs: Seq<usize>,
    k: int,
    pos: Point,
    viewport: Viewport,
)
    requires
        0 <= k <= cs.len(),
        paint_children(nodes, parent, cs.subrange(0, k), pos, viewport) is Err,
    ensures
        paint_children(nodes, parent, cs, pos, viewport) == paint_children(
            nodes,
            parent,
            cs.subrange(0, k),
            pos,
            viewport,
        ),
    decreases cs.len(),
{
    if k == cs.len() {
        assert(cs.subrange(0, k) =~= cs);
    } else {
        let t = cs.drop_last();
        assert(t.subrange(0, k) =~= cs.subrange(0, k));
        lemma_children_prefix_error(nodes, parent, t, k, pos, viewport);
    }
}

/// Paints the subtree at `id`, whose parent sits at `location`, appending its
/// commands to `out`.
fn render_node(
    tree: &Tree,
    id: usize,
    location: Point,
    viewport: &Viewport,
    out: &mut Vec<PaintCommand>,
) -> (r: Result<(), PaintError>)
    ensures
        match paint_subtree(tree.nodes@, id as int, location, *viewport) {
            Ok(c) => r is Ok && final(out)@ == old(out)@ + c,
            Err(e) => r == Err::<(), PaintError>(e),
        },
    decreases tree.nodes@.len() - id, 1int,
{
    if id >= tree.nodes.len() {
        return Err(PaintError::MalformedTree);
    }
    let node = &tree.nodes[id];
    let layout = match &node.layout {
        Some(b) => b,
        None => return Err(PaintError::MissingLayout),
    };
    let pos = move_by(location, layout)?;
    match &node.kind {
        NodeKind::Text(_) => {
            let y = match shift(pos.y, DEFAULT_FONT_SIZE) {
                Some(y) => y,
                None => return Err(PaintError::Resolve(ResolveError::OutOfRange)),
            };
            out.push(
                PaintCommand::Text {
                    node: id,
                    x: pos.x,
                    y,
                    size: DEFAULT_FONT_SIZE,
                    color: node.style.foreground,
                },
            );
            assert(final(out)@ =~= old(out)@ + paint_subtree(tree.nodes@, id as int, location, *viewport)->Ok_0);
            Ok(())
        },
        NodeKind::Element => {
            paint_element(&node.style, &layout.size, pos, viewport, out)?;
            let ghost mid = out@;
            render_children(tree, id, pos, viewport, out)?;
            assert(final(out)@ =~= old(out)@ + paint_subtree(tree.nodes@, id as int, location, *viewport)->Ok_0);
            Ok(())
        },
        NodeKind::Other => {
            assert(final(out)@ =~= old(out)@ + paint_subtree(tree.nodes@, id as int, location, *viewport)->Ok_0);
            Ok(())
        },
    }
}

/// Paints the subtrees of the children of `parent`, which sits at `pos`.
fn render_children(
    tree: &Tree,
    parent: usize,
    pos: Point,
    viewport: &Viewport,
    out: &mut Vec<PaintCommand>,
) -> (r: Result<(), PaintError>)
    requires
        parent < tree.nodes@.len(),
    ensures
        match paint_children(tree.nodes@, parent as int, tree.nodes@[parent as int].children@, pos, *viewport) {
            Ok(c) => r is Ok && final(out)@ == old(out)@ + c,
            Err(e) => r == Err::<(), PaintError>(e),
        },
    decreases tree.nodes@.len() - parent, 0int,
{
    let children = &tree.nodes[parent].children;
    let ghost cs = children@;
    let mut i: usize = 0;
    assert(cs.subrange(0, 0) =~= Seq::<usize>::empty());
    while i < children.len()
        invariant
            i <= cs.len(),
            cs == children@,
            parent < tree.nodes@.len(),
            cs == tree.nodes@[parent as int].children@,
            paint_children(tree.nodes@, parent as int, cs.subrange(0, i as int), pos, *viewport) is Ok,
            out@ == old(out)@ + paint_children(
                tree.nodes@,
                parent as int,
                cs.subrange(0, i as int),
                pos,
                *viewport,
            )->Ok_0,
        decreases cs.len() - i,
    {
        let c = children[i];
        let ghost pre = cs.subrange(0, i as int);
        let ghost next = cs.subrange(0, i + 1);
        assert(next.drop_last() =~= pre);
        if c <= parent || c >= tree.nodes.len() {
            proof {
                lemma_children_prefix_error(tree.nodes@, parent as int, cs, i + 1, pos, *viewport);
            }
            return Err(PaintError::MalformedTree);
        }
        let ghost before = out@;
        match render_node(tree, c, pos, viewport, out) {
            Ok(()) => {},
            Err(e) => {
                proof {
                    lemma_children_prefix_error(tree.nodes@, parent as int, cs, i + 1, pos, *viewport);
                }
                return Err(e);
            },
        }
        assert(out@ =~= old(out)@ + paint_children(tree.nodes@, parent as int, next, pos, *viewport)->Ok_0);
        i = i + 1;
    }
    assert(cs.subrange(0, cs.len() as int) =~= cs);
    Ok(())
}

/// The paint commands of the whole tree, in drawing order: the root's box in
/// white, then every node, parents before their children.
pub fn render(tree: &Tree, viewport: &Viewport) -> (r: Result<Vec<PaintCommand>, PaintError>)
    ensures
        match scene_of(tree.nodes@, *viewport) {
            Ok(c) => r is Ok && r->Ok_0@ == c,
            Err(e) => r == Err::<Vec<PaintCommand>, PaintError>(e),
        },
{
    if tree.nodes.len() == 0 {
        return Err(PaintError::MalformedTree);
    }
    let root = match &tree.nodes[0].layout {
        Some(b) => b,
        None => return Err(PaintError::MissingLayout),
    };
    let x1 = shift(root.location.x, root.size.width);
    let y1 = shift(root.location.y, root.size.height);
    let (x1, y1) = match (x1, y1) {
        (Some(x1), Some(y1)) => (x1, y1),
        _ => return Err(PaintError::Resolve(ResolveError::OutOfRange)),
    };
    let page = RoundedRect {
        x0: root.location.x,
        y0: root.location.y,
        x1,
        y1,
        radii: Radii { top_left: 0, top_right: 0, bottom_right: 0, bottom_left: 0 },
    };
    let mut out: Vec<PaintCommand> = Vec::new();
    out.push(PaintCommand::Fill { color: Color::Rgba(255, 255, 255, 255), shape: page });
    render_node(tree, 0, Point { x: 0, y: 0 }, viewport, &mut out)?;
    proof {
        let c = paint_subtree(tree.nodes@, 0, Point { x: 0, y: 0 }, *viewport);
        if c is Ok {
            assert(out@ =~= scene_of(tree.nodes@, *viewport)->Ok_0);
        }
    }
    Ok(out)
}

/// The position of node `id`, whose own box is `layout`, in the coordinates
/// of the drawing surface: its offset plus those of its ancestors up to, and
/// not including, the root.
pub fn get_abs_pos(layout: &LayoutBox, tree: &Tree, id: usize) -> (r: Result<Point, PaintError>)
    ensures
        r == abs_pos_from(tree.nodes@, id as int, layout.location),
{
    let mut acc = layout.location;
    let mut current = id;
    while current < tree.nodes.len()
        invariant
            abs_pos_from(tree.nodes@, current as int, acc) == abs_pos_from(
                tree.nodes@,
                id as int,
                layout.location,
            ),
        decreases current,
    {
        let p = match tree.nodes[current].parent {
            None => return Ok(acc),
            Some(p) => p,
        };
        if p == 0 {
            return Ok(acc);
        }
        if p >= current {
            return Err(PaintError::MalformedTree);
        }
        let b = match &tree.nodes[p].layout {
            Some(b) => b,
            None => return Err(PaintError::MissingLayout),
        };
        acc = move_by(acc, b)?;
        current = p;
    }
    Err(PaintError::MalformedTree)
}

/// A focused element is painted with two strokes and one fill, in this
/// order: the white ring on its outline, the black ring on the same outline,
/// and its background inside the ring.
pub proof fn lemma_focused_element_paint(st: NodeStyle, size: Size, pos: Point, viewport: Viewport)
    requires
        st.focused,
        element_paint(st, size, pos, viewport) is Ok,
    ensures
        ({
            let c = element_paint(st, size, pos, viewport)->Ok_0;
            let shape = shape_of(size, st.border, st.font_size, true, viewport, pos)->Ok_0;
            &&& c.len() == 3
            &&& c[0] == PaintCommand::Stroke { width: 3000, color: white(), shape }
            &&& c[1] == PaintCommand::Stroke { width: 3000, color: black(), shape }
            &&& c[2] == PaintCommand::Fill {
                color: st.background,
                shape: inset(shape, FOCUS_BORDER_WIDTH / 2)->Ok_0,
            }
        }),
{
}

} // verus!

//! The shape selectors and the drawing commands each one expands to.
//!
//! A shape is described by an ordered sequence of drawing commands: begin a
//! sub-path, draw a quadratic bezier edge, end (optionally closing), or add a
//! whole closed contour (circle, rounded rectangle, polygon) in one command.
//! The sequence is produced once per shape and is immutable afterward.

use vstd::prelude::*;

verus! {

/// A 2D position with integer coordinates. The example shapes all lie on
/// integer coordinates; the tessellator works in real coordinates and its
/// output vertices are carried as decimal text (`crate::geometry::Vertex`).
#[derive(Clone, Copy, Debug, PartialEq, Eq, Structural)]
pub struct Point {
    pub x: i16,
    pub y: i16,
}

/// One drawing command, as handed to the path builder.
pub enum ShapeCmd {
    /// Start a new sub-path at a point. No sub-path may be open.
    Begin { at: Point },
    /// Draw a quadratic bezier edge to `to` with control point `ctrl`.
    /// A sub-path must be open.
    QuadraticTo { ctrl: Point, to: Point },
    /// End the open sub-path, closing it if `close` is set.
    Close { close: bool },
    /// Add a full circular contour. No sub-path may be open; none is left open.
    Circle { center: Point, radius: u16, positive: bool },
    /// Add an axis-aligned rectangle contour with rounded corners, given by
    /// its minimum corner, its size and one corner radius.
    RoundedRect { corner: Point, width: u16, height: u16, radius: u16, positive: bool },
    /// Add a polygon contour through the given points, in order.
    Polygon { points: Vec<Point>, closed: bool },
}

/// The mathematical model of one drawing command.
pub ghost enum Cmd {
    Begin { x: int, y: int },
    QuadraticTo { cx: int, cy: int, x: int, y: int },
    Close { close: bool },
    Circle { x: int, y: int, radius: int, positive: bool },
    RoundedRect { x: int, y: int, width: int, height: int, radius: int, positive: bool },
    Polygon { points: Seq<(int, int)>, closed: bool },
}

impl View for ShapeCmd {
    type V = Cmd;

    open spec fn view(&self) -> Cmd {
        match *self {
            ShapeCmd::Begin { at } => Cmd::Begin { x: at.x as int, y: at.y as int },
            ShapeCmd::QuadraticTo { ctrl, to } => Cmd::QuadraticTo {
                cx: ctrl.x as int,
                cy: ctrl.y as int,
                x: to.x as int,
                y: to.y as int,
            },
            ShapeCmd::Close { close } => Cmd::Close { close },
            ShapeCmd::Circle { center, radius, positive } => Cmd::Circle {
                x: center.x as int,
                y: center.y as int,
                radius: radius as int,
                positive,
            },
            ShapeCmd::RoundedRect { corner, width, height, radius, positive } => Cmd::RoundedRect {
                x: corner.x as int,
                y: corner.y as int,
                width: width as int,
                height: height as int,
                radius: radius as int,
                positive,
            },
            ShapeCmd::Polygon { points, closed } => Cmd::Polygon {
                points: points@.map_values(|p: Point| (p.x as int, p.y as int)),
                closed,
            },
        }
    }
}

/// The model of a command sequence: the views of its commands, in order.
pub open spec fn cmds_view(cmds: Seq<ShapeCmd>) -> Seq<Cmd> {
    cmds.map_values(|c: ShapeCmd| c@)
}

/// Whether a sub-path is still open after the given commands have run.
/// `Begin` opens one, an edge keeps it open, everything else leaves none open.
pub open spec fn subpath_open(cmds: Seq<Cmd>) -> bool
    decreases cmds.len(),
{
    if cmds.len() == 0 {
        false
    } else {
        match cmds.last() {
            Cmd::Begin { .. } => true,
            Cmd::QuadraticTo { .. } => subpath_open(cmds.drop_last()),
            _ => false,
        }
    }
}

/// Whether one command may run when a sub-path is open (`open`) or not.
/// Edges and ends need an open sub-path; everything else needs none, and a
/// polygon must have at least one point.
pub open spec fn cmd_ok(c: Cmd, open: bool) -> bool {
    match c {
        Cmd::Begin { .. } => !open,
        Cmd::QuadraticTo { .. } => open,
        Cmd::Close { .. } => open,
        Cmd::Circle { .. } => !open,
        Cmd::RoundedRect { .. } => !open,
        Cmd::Polygon { points, .. } => !open && points.len() > 0,
    }
}

/// A well-formed command sequence: every command may run in the state left by
/// the ones before it.
pub open spec fn cmds_valid(cmds: Seq<Cmd>) -> bool
    decreases cmds.len(),
{
    cmds.len() == 0 || (cmds_valid(cmds.drop_last()) && cmd_ok(
        cmds.last(),
        subpath_open(cmds.drop_last()),
    ))
}

/// Every prefix of a well-formed command sequence is well-formed.
pub proof fn lemma_cmds_valid_take(cmds: Seq<Cmd>, i: int)
    requires
        cmds_valid(cmds),
        0 <= i <= cmds.len(),
    ensures
        cmds_valid(cmds.take(i)),
    decreases cmds.len() - i,
{
    if i == cmds.len() {
        assert(cmds.take(i) =~= cmds);
    } else {
        lemma_cmds_valid_take(cmds, i + 1);
        assert(cmds.take(i + 1).drop_last() =~= cmds.take(i));
    }
}

/// One of the four example shapes.
#[derive(Clone, Copy, Debug, PartialEq, Eq, Structural)]
pub enum Choice {
    Bezier,
    Circle,
    RoundRect,
    Polygon,
}

/// The drawing commands of one shape choice.
pub open spec fn shape_cmds(choice: Choice) -> Seq<Cmd> {
    match choice {
        Choice::Bezier => seq![
            Cmd::Begin { x: 0, y: 0 },
            Cmd::QuadraticTo { cx: 60, cy: 0, x: 90, y: 90 },
            Cmd::Close { close: true },
        ],
        Choice::Circle => seq![Cmd::Circle { x: 0, y: 0, radius: 90, positive: true }],
        Choice::RoundRect => seq![
            Cmd::RoundedRect { x: 5, y: 5, width: 80, height: 80, radius: 5, positive: true },
        ],
        Choice::Polygon => seq![
            Cmd::Polygon { points: seq![(45int, 10int), (80int, 80int), (10int, 80int)], closed: true },
        ],
    }
}

impl Choice {
    /// The shape's textual name, used for the output file name.
    pub open spec fn spec_name(self) -> Seq<char> {
        match self {
            Choice::Bezier => "Bezier"@,
            Choice::Circle => "Circle"@,
            Choice::RoundRect => "RoundRect"@,
            Choice::Polygon => "Polygon"@,
        }
    }

    /// The shape's textual name.
    pub fn name(&self) -> (s: &'static str)
        ensures
            s@ == self.spec_name(),
    {
        match *self {
            Choice::Bezier => "Bezier",
            Choice::Circle => "Circle",
            Choice::RoundRect => "RoundRect",
            Choice::Polygon => "Polygon",
        }
    }
}

/// Builds the drawing commands of one shape choice.
pub fn shape_commands(choice: &Choice) -> (r: Vec<ShapeCmd>)
    ensures
        cmds_view(r@) == shape_cmds(*choice),
        cmds_valid(shape_cmds(*choice)),
        !subpath_open(shape_cmds(*choice)),
{
    let r: Vec<ShapeCmd> = match *choice {
        Choice::Bezier => vec![
            ShapeCmd::Begin { at: Point { x: 0, y: 0 } },
            ShapeCmd::QuadraticTo { ctrl: Point { x: 60, y: 0 }, to: Point { x: 90, y: 90 } },
            ShapeCmd::Close { close: true },
        ],
        Choice::Circle => vec![
            ShapeCmd::Circle { center: Point { x: 0, y: 0 }, radius: 90, positive: true },
        ],
        Choice::RoundRect => vec![
            ShapeCmd::RoundedRect {
                corner: Point { x: 5, y: 5 },
                width: 80,
                height: 80,
                radius: 5,
                positive: true,
            },
        ],
        Choice::Polygon => {
            let points: Vec<Point> = vec![
                Point { x: 45, y: 10 },
                Point { x: 80, y: 80 },
                Point { x: 10, y: 80 },
            ];
            vec![ShapeCmd::Polygon { points, closed: true }]
        },
    };
    proof {
        assert(cmds_view(r@) =~= shape_cmds(*choice)) by {
            if *choice == Choice::Polygon {
                assert(cmds_view(r@)[0] == shape_cmds(*choice)[0]) by {
                    let pts = (match r@[0] {
                        ShapeCmd::Polygon { points, .. } => points,
                        _ => arbitrary(),
                    });
                    assert(pts@.map_values(|p: Point| (p.x as int, p.y as int)) =~= seq![
                        (45int, 10int),
                        (80int, 80int),
                        (10int, 80int),
                    ]);
                }
            }
        }
        lemma_shape_cmds_valid(*choice);
    }
    r
}

/// The command sequence of every shape choice is well-formed and leaves no
/// sub-path open.
pub proof fn lemma_shape_cmds_valid(choice: Choice)
    ensures
        cmds_valid(shape_cmds(choice)),
        !subpath_open(shape_cmds(choice)),
{
    let s = shape_cmds(choice);
    match choice {
        Choice::Bezier => {
            let s2 = s.drop_last();
            let s1 = s2.drop_last();
            let s0 = s1.drop_last();
            assert(s0 =~= Seq::<Cmd>::empty());
            assert(cmds_valid(s0));
            assert(!subpath_open(s0));
            assert(cmds_valid(s1));
            assert(subpath_open(s1));
            assert(cmds_valid(s2));
            assert(subpath_open(s2));
            assert(cmds_valid(s));
        },
        Choice::Circle => {
            assert(s.drop_last() =~= Seq::<Cmd>::empty());
            assert(cmds_valid(s.drop_last()));
            assert(!subpath_open(s.drop_last()));
        },
        Choice::RoundRect => {
            assert(s.drop_last() =~= Seq::<Cmd>::empty());
            assert(cmds_valid(s.drop_last()));
            assert(!subpath_open(s.drop_last()));
        },
        Choice::Polygon => {
            assert(s.drop_last() =~= Seq::<Cmd>::empty());
            assert(cmds_valid(s.drop_last()));
            assert(!subpath_open(s.drop_last()));
        },
    }
}

} // verus!

use vstd::prelude::*;

verus! {

/// Extent of the grid, in grid steps: the grid spans ten steps on each axis.
pub const GRID_LINES: u32 = 10;

/// Length of each axis of a frame's triad, in grid steps.
pub const AXIS_LENGTH: u32 = 1;

/// Segments in each plane of the grid: one parallel to each of the plane's two
/// axes at every line position `0..=GRID_LINES`.
pub const SEGMENTS_PER_PLANE: u32 = 2 * (GRID_LINES + 1);

/// A lattice point, in grid steps along x, y and z.
#[derive(Debug, Clone, Copy, PartialEq, Eq)]
pub struct GridPoint {
    pub x: u32,
    pub y: u32,
    pub z: u32,
}

/// A straight line segment between two lattice points.
#[derive(Debug, Clone, Copy, PartialEq, Eq)]
pub struct Segment {
    pub start: GridPoint,
    pub end: GridPoint,
}

pub open spec fn point(x: int, y: int, z: int) -> GridPoint {
    GridPoint { x: x as u32, y: y as u32, z: z as u32 }
}

pub open spec fn segment(a: GridPoint, b: GridPoint) -> Segment {
    Segment { start: a, end: b }
}

/// Line `j` (0 or 1) at position `i` of grid plane `plane`: plane 0 is XY,
/// 1 is XZ, 2 is YZ. Line 0 runs along the plane's first axis at offset `i`
/// on its second; line 1 runs along the second axis at offset `i` on the first.
pub open spec fn grid_segment(plane: int, i: int, j: int) -> Segment {
    let n = GRID_LINES as int;
    if plane == 0 {
        if j == 0 {
            segment(point(0, i, 0), point(n, i, 0))
        } else {
            segment(point(i, 0, 0), point(i, n, 0))
        }
    } else if plane == 1 {
        if j == 0 {
            segment(point(0, 0, i), point(n, 0, i))
        } else {
            segment(point(i, 0, 0), point(i, 0, n))
        }
    } else {
        if j == 0 {
            segment(point(0, 0, i), point(0, n, i))
        } else {
            segment(point(0, i, 0), point(0, i, n))
        }
    }
}

/// The triad's segment along axis `a` (0: x, 1: y, 2: z), from the origin.
pub open spec fn axis_segment(a: int) -> Segment {
    let l = AXIS_LENGTH as int;
    if a == 0 {
        segment(point(0, 0, 0), point(l, 0, 0))
    } else if a == 1 {
        segment(point(0, 0, 0), point(0, l, 0))
    } else {
        segment(point(0, 0, 0), point(0, 0, l))
    }
}

fn plane_lines(plane: u32, i: u32) -> (r: (Segment, Segment))
    requires
        plane < 3,
        i <= GRID_LINES,
    ensures
        r.0 == grid_segment(plane as int, i as int, 0),
        r.1 == grid_segment(plane as int, i as int, 1),
{
    let n = GRID_LINES;
    let o = GridPoint { x: 0, y: 0, z: 0 };
    if plane == 0 {
        (
            Segment { start: GridPoint { y: i, ..o }, end: GridPoint { x: n, y: i, z: 0 } },
            Segment { start: GridPoint { x: i, ..o }, end: GridPoint { x: i, y: n, z: 0 } },
        )
    } else if plane == 1 {
        (
            Segment { start: GridPoint { z: i, ..o }, end: GridPoint { x: n, y: 0, z: i } },
            Segment { start: GridPoint { x: i, ..o }, end: GridPoint { x: i, y: 0, z: n } },
        )
    } else {
        (
            Segment { start: GridPoint { z: i, ..o }, end: GridPoint { x: 0, y: n, z: i } },
            Segment { start: GridPoint { y: i, ..o }, end: GridPoint { x: 0, y: i, z: n } },
        )
    }
}

/// The grid: for each of the planes XY, XZ and YZ in turn, for each line
/// position `i` in `0..=GRID_LINES`, its two lines through `i`. The grid step
/// is one tenth of the grid's extent.
pub fn grid_segments() -> (r: Vec<Segment>)
    ensures
        r@.len() == 3 * SEGMENTS_PER_PLANE,
        forall|p: int, i: int, j: int|
            0 <= p < 3 && 0 <= i <= GRID_LINES && 0 <= j < 2 ==> r@[p * SEGMENTS_PER_PLANE + 2
                * i + j] == #[trigger] grid_segment(p, i, j),
{
    let mut r: Vec<Segment> = Vec::new();
    let mut p: u32 = 0;
    while p < 3
        invariant
            p <= 3,
            r@.len() == p * SEGMENTS_PER_PLANE,
            forall|q: int, i: int, j: int|
                0 <= q < p && 0 <= i <= GRID_LINES && 0 <= j < 2 ==> r@[q * SEGMENTS_PER_PLANE + 2
                    * i + j] == #[trigger] grid_segment(q, i, j),
        decreases 3 - p,
    {
        let mut i: u32 = 0;
        while i <= GRID_LINES
            invariant
                p < 3,
                i <= GRID_LINES + 1,
                r@.len() == p * SEGMENTS_PER_PLANE + 2 * i,
                forall|q: int, k: int, j: int|
                    0 <= q < p && 0 <= k <= GRID_LINES && 0 <= j < 2 ==> r@[q * SEGMENTS_PER_PLANE
                        + 2 * k + j] == #[trigger] grid_segment(q, k, j),
                forall|k: int, j: int|
                    0 <= k < i && 0 <= j < 2 ==> r@[p * SEGMENTS_PER_PLANE + 2 * k + j]
                        == #[trigger] grid_segment(p as int, k, j),
            decreases GRID_LINES + 1 - i,
        {
            let (a, b) = plane_lines(p, i);
            r.push(a);
            r.push(b);
            i = i + 1;
        }
        assert(r@.len() == (p + 1) * SEGMENTS_PER_PLANE) by (nonlinear_arith)
            requires
                r@.len() == p * SEGMENTS_PER_PLANE + 2 * (GRID_LINES + 1),
                SEGMENTS_PER_PLANE == 2 * (GRID_LINES + 1),
        ;
        p = p + 1;
    }
    r
}

/// The axis triad of a frame: segment `a` runs from the origin along axis `a`
/// (x, y, z), to be drawn red, green and blue.
pub fn axis_triad() -> (r: Vec<Segment>)
    ensures
        r@.len() == 3,
        forall|a: int| 0 <= a < 3 ==> r@[a] == #[trigger] axis_segment(a),
{
    let l = AXIS_LENGTH;
    let o = GridPoint { x: 0, y: 0, z: 0 };
    let r = vec![
        Segment { start: o, end: GridPoint { x: l, ..o } },
        Segment { start: o, end: GridPoint { y: l, ..o } },
        Segment { start: o, end: GridPoint { z: l, ..o } },
    ];
    assert forall|a: int| 0 <= a < 3 implies r@[a] == #[trigger] axis_segment(a) by {
        if a == 0 {
        } else if a == 1 {
        } else {
        }
    }
    r
}

} // verus!

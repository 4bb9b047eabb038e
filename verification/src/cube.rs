//! The corners and edges of an axis-aligned box, as a wireframe draws them.
//!
//! A box has a low and a high side along each axis, so a corner is a choice of side
//! per axis, and an edge joins two corners that lie on different sides along exactly
//! one axis. Corners are numbered from the all-high corner, which is corner 0: the
//! number of a corner is 1 if it is low along x, plus 2 if it is low along y, plus 4
//! if it is low along z. Where the box stands and how large it is plays no part here.

use vstd::prelude::*;

verus! {

/// A corner of a box: for each axis, whether the corner lies on the low side.
#[derive(Debug, Clone, Copy, PartialEq, Eq, Structural)]
pub struct Corner {
    pub low_x: bool,
    pub low_y: bool,
    pub low_z: bool,
}

impl Corner {
    /// On how many axes two corners lie on different sides.
    pub open spec fn axes_apart(self, other: Corner) -> nat {
        let x: nat = if self.low_x != other.low_x { 1 } else { 0 };
        let y: nat = if self.low_y != other.low_y { 1 } else { 0 };
        let z: nat = if self.low_z != other.low_z { 1 } else { 0 };
        x + y + z
    }

    /// Whether an edge of the box runs between two corners.
    pub open spec fn adjacent(self, other: Corner) -> bool {
        self.axes_apart(other) == 1
    }
}

/// The corner with a given number, for numbers 0 to 7.
pub open spec fn corner_at(number: int) -> Corner {
    Corner {
        low_x: number % 2 == 1,
        low_y: (number / 2) % 2 == 1,
        low_z: (number / 4) % 2 == 1,
    }
}

/// The eight corners by their numbers.
pub open spec fn corner_list() -> Seq<Corner> {
    Seq::new(8, |number: int| corner_at(number))
}

/// The twelve edges in the order they are drawn, each as the numbers of the two
/// corners it joins.
pub open spec fn edge_list() -> Seq<(usize, usize)> {
    seq![
        (0usize, 1usize),
        (0usize, 2usize),
        (0usize, 4usize),
        (7usize, 6usize),
        (7usize, 5usize),
        (7usize, 3usize),
        (6usize, 2usize),
        (5usize, 1usize),
        (3usize, 2usize),
        (3usize, 1usize),
        (5usize, 4usize),
        (4usize, 6usize),
    ]
}

/// Whether the edges hold one that joins two corners, given by their numbers, in
/// either direction.
pub open spec fn joined(first: int, second: int) -> bool {
    exists|k: int|
        0 <= k < 12 && {
            let edge = #[trigger] edge_list()[k];
            (edge.0 == first && edge.1 == second) || (edge.0 == second && edge.1 == first)
        }
}

/// Lists the eight corners of a box by their numbers.
pub fn corners() -> (list: [Corner; 8])
    ensures
        list@ == corner_list(),
{
    let list = [
        Corner { low_x: false, low_y: false, low_z: false },
        Corner { low_x: true, low_y: false, low_z: false },
        Corner { low_x: false, low_y: true, low_z: false },
        Corner { low_x: true, low_y: true, low_z: false },
        Corner { low_x: false, low_y: false, low_z: true },
        Corner { low_x: true, low_y: false, low_z: true },
        Corner { low_x: false, low_y: true, low_z: true },
        Corner { low_x: true, low_y: true, low_z: true },
    ];
    assert(list@ =~= corner_list());
    list
}

/// Lists the twelve edges of a box in the order they are drawn.
pub fn edges() -> (list: [(usize, usize); 12])
    ensures
        list@ == edge_list(),
{
    let list = [
        (0usize, 1usize),
        (0usize, 2usize),
        (0usize, 4usize),
        (7usize, 6usize),
        (7usize, 5usize),
        (7usize, 3usize),
        (6usize, 2usize),
        (5usize, 1usize),
        (3usize, 2usize),
        (3usize, 1usize),
        (5usize, 4usize),
        (4usize, 6usize),
    ];
    assert(list@ =~= edge_list());
    list
}

/// The eight corners are all different.
pub proof fn lemma_corners_differ(first: int, second: int)
    requires
        0 <= first < 8,
        0 <= second < 8,
        first != second,
    ensures
        corner_at(first) != corner_at(second),
{
}

/// Every choice of sides is one of the eight corners.
pub proof fn lemma_corner_has_number(corner: Corner) -> (number: int)
    ensures
        0 <= number < 8,
        corner_at(number) == corner,
{
    let x: int = if corner.low_x { 1 } else { 0 };
    let y: int = if corner.low_y { 2 } else { 0 };
    let z: int = if corner.low_z { 4 } else { 0 };
    x + y + z
}

/// Each edge joins two corners of the box that lie on different sides along
/// exactly one axis.
pub proof fn lemma_edge_joins_neighbours(k: int)
    requires
        0 <= k < 12,
    ensures
        edge_list()[k].0 < 8,
        edge_list()[k].1 < 8,
        corner_at(edge_list()[k].0 as int).adjacent(corner_at(edge_list()[k].1 as int)),
{
}

/// No edge is listed twice, in either direction.
pub proof fn lemma_edges_differ(j: int, k: int)
    requires
        0 <= j < 12,
        0 <= k < 12,
        j != k,
    ensures
        edge_list()[j] != edge_list()[k],
        edge_list()[j] != (edge_list()[k].1, edge_list()[k].0),
{
}

/// Any two corners that lie on different sides along exactly one axis are joined
/// by an edge: with the two laws above, the twelve edges are the edges of the box.
pub proof fn lemma_neighbours_joined(first: int, second: int)
    requires
        0 <= first < 8,
        0 <= second < 8,
        corner_at(first).adjacent(corner_at(second)),
    ensures
        joined(first, second),
{
    let low = if first < second { first } else { second };
    let high = if first < second { second } else { first };
    let k: int = if low == 0 && high == 1 {
        0
    } else if low == 0 && high == 2 {
        1
    } else if low == 0 && high == 4 {
        2
    } else if low == 6 && high == 7 {
        3
    } else if low == 5 && high == 7 {
        4
    } else if low == 3 && high == 7 {
        5
    } else if low == 2 && high == 6 {
        6
    } else if low == 1 && high == 5 {
        7
    } else if low == 2 && high == 3 {
        8
    } else if low == 1 && high == 3 {
        9
    } else if low == 4 && high == 5 {
        10
    } else {
        11
    };
    let edge = edge_list()[k];
    assert((edge.0 == first && edge.1 == second) || (edge.0 == second && edge.1 == first));
}

} // verus!

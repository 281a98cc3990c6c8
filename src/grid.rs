//! Cells of the play field and the moves between them.
use vstd::prelude::*;

verus! {

/// A cell of the terminal grid: column `x`, row `y`, counted from the
/// top-left corner.
#[derive(Clone, Copy, Debug, PartialEq, Eq, Structural)]
pub struct Point {
    pub x: u16,
    pub y: u16,
}

/// The snake's heading. Up is towards row 0, Left towards column 0.
#[derive(Clone, Copy, Debug, PartialEq, Eq, Structural)]
pub enum Direction {
    Up,
    Down,
    Left,
    Right,
}

/// The column and row one step from `h` towards `d`, as mathematical
/// integers, before they are fitted to the grid.
pub open spec fn translate(h: Point, d: Direction) -> (int, int) {
    match d {
        Direction::Up => (h.x as int, h.y - 1),
        Direction::Down => (h.x as int, h.y + 1),
        Direction::Left => (h.x - 1, h.y as int),
        Direction::Right => (h.x + 1, h.y as int),
    }
}

/// A coordinate that a `u16` can hold stays as it is; one that leaves that
/// range, below or above, lands on line 0, which is the wall.
pub open spec fn on_grid(v: int) -> u16 {
    if 0 <= v <= u16::MAX {
        v as u16
    } else {
        0
    }
}

/// The cell one step from `h` towards `d`.
pub open spec fn next_head_spec(h: Point, d: Direction) -> Point {
    let (x, y) = translate(h, d);
    Point { x: on_grid(x), y: on_grid(y) }
}

/// A cell on the wall: column 0 or row 0.
pub open spec fn is_wall(p: Point) -> bool {
    p.x == 0 || p.y == 0
}

/// The cell one step from `head` towards `dir`. A step below 0 or beyond
/// `u16::MAX` lands on the wall.
pub fn next_head(head: Point, dir: &Direction) -> (r: Point)
    ensures
        r == next_head_spec(head, *dir),
{
    match dir {
        Direction::Up => Point { x: head.x, y: if head.y > 0 { head.y - 1 } else { 0 } },
        Direction::Down => Point { x: head.x, y: if head.y < u16::MAX { head.y + 1 } else { 0 } },
        Direction::Left => Point { x: if head.x > 0 { head.x - 1 } else { 0 }, y: head.y },
        Direction::Right => Point { x: if head.x < u16::MAX { head.x + 1 } else { 0 }, y: head.y },
    }
}

/// Away from the wall, and where the grid has room in the direction of
/// travel, a step changes exactly one coordinate, by exactly one, and keeps
/// the other.
pub proof fn lemma_step_moves_one_axis(h: Point, d: Direction)
    requires
        h.x > 0,
        h.y > 0,
        d == Direction::Right ==> h.x < u16::MAX,
        d == Direction::Down ==> h.y < u16::MAX,
    ensures
        ({
            let r = next_head_spec(h, d);
            ||| r.x == h.x && (r.y == h.y + 1 || r.y == h.y - 1)
            ||| r.y == h.y && (r.x == h.x + 1 || r.x == h.x - 1)
        }),
{
}

} // verus!

//! How a key press turns into a heading.
use vstd::prelude::*;
use crate::grid::Direction;

verus! {

/// The kind of key press that one poll of the keyboard found.
#[derive(Clone, Copy, Debug, PartialEq, Eq, Structural)]
pub enum Key {
    Up,
    Down,
    Left,
    Right,
    /// Any key or event that is not an arrow key.
    Other,
}

/// The heading after one poll: an arrow key sets it, and anything else, or
/// no event at all, holds the current one.
pub open spec fn steer_spec(current: Direction, key: Option<Key>) -> Direction {
    match key {
        Some(Key::Up) => Direction::Up,
        Some(Key::Down) => Direction::Down,
        Some(Key::Left) => Direction::Left,
        Some(Key::Right) => Direction::Right,
        _ => current,
    }
}

/// The heading after a run of polls, taken in order.
pub open spec fn steer_all(current: Direction, keys: Seq<Option<Key>>) -> Direction
    decreases keys.len(),
{
    if keys.len() == 0 {
        current
    } else {
        steer_all(steer_spec(current, keys[0]), keys.drop_first())
    }
}

/// The heading after one poll that found `key` (`None`: no event pending).
pub fn steer(current: Direction, key: Option<Key>) -> (r: Direction)
    ensures
        r == steer_spec(current, key),
{
    match key {
        Some(Key::Up) => Direction::Up,
        Some(Key::Down) => Direction::Down,
        Some(Key::Left) => Direction::Left,
        Some(Key::Right) => Direction::Right,
        _ => current,
    }
}

/// Any number of polls that find no key pressed leave the heading as it was.
pub proof fn lemma_idle_polls_keep_heading(current: Direction, keys: Seq<Option<Key>>)
    requires
        forall|i: int| 0 <= i < keys.len() ==> keys[i] is None,
    ensures
        steer_all(current, keys) == current,
    decreases keys.len(),
{
    if keys.len() > 0 {
        lemma_idle_polls_keep_heading(current, keys.drop_first());
    }
}

} // verus!

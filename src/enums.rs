use vstd::prelude::*;

verus! {

/// The four views a billboard sprite can show.
#[derive(Clone, Copy, Debug, PartialEq, Eq, Structural)]
pub enum Direction {
    Front,
    Back,
    Left,
    Right,
}

impl Default for Direction {
    fn default() -> (r: Direction)
        ensures
            r == Direction::Front,
    {
        Direction::Front
    }
}

} // verus!

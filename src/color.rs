use vstd::prelude::*;

verus! {

/// The two sides of a game. White always moves first.
#[derive(Clone, Copy, Debug, PartialEq, Eq, Structural)]
pub enum Color {
    White,
    Black,
}

/// The colour that plays at seat `turn`: seat 0 holds White, any other Black.
pub open spec fn color_of(turn: nat) -> Color {
    if turn == 0 {
        Color::White
    } else {
        Color::Black
    }
}

impl Color {
    pub open spec fn spec_other(self) -> Color {
        match self {
            Color::White => Color::Black,
            Color::Black => Color::White,
        }
    }

    /// The opposing side.
    pub fn other(self) -> (r: Color)
        ensures
            r == self.spec_other(),
    {
        match self {
            Color::White => Color::Black,
            Color::Black => Color::White,
        }
    }
}

/// The colour whose turn it is when seat `turn` is to move.
#[allow(non_snake_case)]
pub fn refreshColor(turn: usize) -> (r: Color)
    ensures
        r == color_of(turn as nat),
{
    if turn == 0 {
        Color::White
    } else {
        Color::Black
    }
}

} // verus!

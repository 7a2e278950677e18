use vstd::prelude::*;

verus! {

/// Horizontal placement of an element on the device screen.
pub enum Layout {
    LeftAligned,
    RightAligned,
    Centered,
}

/// The three text lines of the device screen.
#[derive(Clone, Copy)]
pub enum Line {
    First,
    Second,
    Third,
}

/// The baseline screen row of each line.
pub open spec fn spec_line_row(line: Line) -> int {
    match line {
        Line::First => 22,
        Line::Second => 42,
        Line::Third => 62,
    }
}

impl Line {
    /// The baseline screen row of this line.
    pub fn row(&self) -> (r: i32)
        ensures
            r == spec_line_row(*self),
    {
        match self {
            Line::First => 22,
            Line::Second => 42,
            Line::Third => 62,
        }
    }
}

} // verus!

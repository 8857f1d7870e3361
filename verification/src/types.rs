//! The eight named ANSI colors and their SGR foreground parameters.

use vstd::prelude::*;

verus! {

/// The standard eight-color ANSI palette.
pub enum Colours {
    Black,
    Red,
    Green,
    Yellow,
    Blue,
    Magenta,
    Cyan,
    White,
}

impl Colours {
    /// The SGR foreground parameter (the digits between `ESC[` and `m`)
    /// that selects this color.
    pub open spec fn code_digits(&self) -> Seq<char> {
        match self {
            Colours::Black => "30"@,
            Colours::Red => "31"@,
            Colours::Green => "32"@,
            Colours::Yellow => "33"@,
            Colours::Blue => "34"@,
            Colours::Magenta => "35"@,
            Colours::Cyan => "36"@,
            Colours::White => "37"@,
        }
    }

    /// Returns the SGR foreground parameter for this color.
    pub fn as_str(&self) -> (s: &'static str)
        ensures
            s@ == self.code_digits(),
    {
        match self {
            Colours::Black => "30",
            Colours::Red => "31",
            Colours::Green => "32",
            Colours::Yellow => "33",
            Colours::Blue => "34",
            Colours::Magenta => "35",
            Colours::Cyan => "36",
            Colours::White => "37",
        }
    }
}

} // verus!

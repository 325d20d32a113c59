//! The one piece of application state: `Size`, an integer in `[5, 100]`
//! restricted to multiples of the slider step `5`.

use vstd::prelude::*;

verus! {

/// Smallest value the slider can report.
pub const SIZE_MIN: u32 = 5;

/// Largest value the slider can report.
pub const SIZE_MAX: u32 = 100;

/// Distance between two adjacent slider positions.
pub const SIZE_STEP: u32 = 5;

/// Value a freshly mounted page starts with, before any interaction.
pub const DEFAULT_SIZE: u32 = 50;

/// A value is a legal `Size` exactly when the slider can reach it:
/// within the closed range and on the step grid.
pub open spec fn valid_size(v: u32) -> bool {
    SIZE_MIN <= v <= SIZE_MAX && v % SIZE_STEP == 0
}

/// A validated slider value. Every `Size` that the library hands out
/// satisfies [`valid_size`]; the raw integer is reachable through
/// [`Size::value`].
#[derive(Clone, Copy, PartialEq, Eq, Structural)]
pub struct Size {
    v: u32,
}

impl Size {
    /// The integer this `Size` stands for.
    pub closed spec fn spec_value(self) -> u32 {
        self.v
    }

    /// Well-formedness: the held value is slider-reachable.
    pub open spec fn wf(self) -> bool {
        valid_size(self.spec_value())
    }

    /// Accepts exactly the slider-reachable values and rejects the rest.
    pub fn new(v: u32) -> (r: Option<Size>)
        ensures
            r is Some <==> valid_size(v),
            r is Some ==> r->Some_0.spec_value() == v && r->Some_0.wf(),
    {
        if SIZE_MIN <= v && v <= SIZE_MAX && v % SIZE_STEP == 0 {
            Some(Size { v })
        } else {
            None
        }
    }

    /// The starting `Size` of a freshly mounted page.
    pub fn start() -> (r: Size)
        ensures
            r.spec_value() == DEFAULT_SIZE,
            r.wf(),
    {
        Size { v: DEFAULT_SIZE }
    }

    /// Reads the underlying integer back out.
    pub fn value(self) -> (r: u32)
        ensures
            r == self.spec_value(),
    {
        self.v
    }
}

} // verus!

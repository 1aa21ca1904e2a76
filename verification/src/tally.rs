//! Tally indicator

use vstd::prelude::*;

verus! {

/// Tally indicator state: whether a stream is on program output, on preview
/// output, both or neither.
#[derive(Debug, Clone, Copy, PartialEq, Eq, Hash, Structural)]
pub struct Tally {
    pub program: bool,
    pub preview: bool,
}

impl Tally {
    pub fn new(program: bool, preview: bool) -> (tally: Tally)
        ensures
            tally == (Tally { program, preview }),
    {
        Tally { program, preview }
    }

    pub fn on_program(&self) -> (on: bool)
        ensures
            on == self.program,
    {
        self.program
    }

    pub fn set_program(&mut self, on: bool)
        ensures
            *final(self) == (Tally { program: on, preview: old(self).preview }),
    {
        self.program = on;
    }

    pub fn on_preview(&self) -> (on: bool)
        ensures
            on == self.preview,
    {
        self.preview
    }

    pub fn set_preview(&mut self, on: bool)
        ensures
            *final(self) == (Tally { program: old(self).program, preview: on }),
    {
        self.preview = on;
    }

    /// The stream is visible on some output.
    pub fn is_shown(&self) -> (shown: bool)
        ensures
            shown == (self.program || self.preview),
    {
        self.program || self.preview
    }

    /// Reads the two flags of the SDK's tally structure.
    pub fn from_ffi(on_program: bool, on_preview: bool) -> (tally: Tally)
        ensures
            tally == (Tally { program: on_program, preview: on_preview }),
    {
        Tally { program: on_program, preview: on_preview }
    }

    /// The two flags of the SDK's tally structure: program first, then
    /// preview.
    pub fn to_ffi(self) -> (flags: (bool, bool))
        ensures
            flags == (self.program, self.preview),
    {
        (self.program, self.preview)
    }
}

} // verus!

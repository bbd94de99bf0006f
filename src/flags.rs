use vstd::prelude::*;

verus! {

/// The six independent options of a search, resolved once before any
/// traversal and read, never changed, afterwards.
#[derive(Clone, Copy, Debug, PartialEq, Eq, Structural)]
pub struct Flags {
    pub ignore_case: bool,
    pub count: bool,
    pub line_number: bool,
    pub color: bool,
    pub invert_match: bool,
    pub recursive: bool,
}

impl Flags {
    /// All options unset.
    pub fn new() -> (r: Flags)
        ensures
            !r.ignore_case && !r.count && !r.line_number,
            !r.color && !r.invert_match && !r.recursive,
    {
        Flags {
            ignore_case: false,
            count: false,
            line_number: false,
            color: false,
            invert_match: false,
            recursive: false,
        }
    }
}

} // verus!

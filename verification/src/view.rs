//! View-level helpers: document identifiers and the arithmetic of aligning
//! a view on its cursor line.

use vstd::prelude::*;

verus! {

/// Identifies an open document. Identifiers start at one, so a freshly
/// initialized editor's first document is number one.
#[derive(Clone, Copy, PartialEq, Eq, Structural, PartialOrd, Ord, Hash, Debug)]
pub struct DocumentId(pub usize);

impl DocumentId {
    /// The identifier is never zero.
    pub open spec fn wf(self) -> bool {
        self.0 >= 1
    }
}

impl Default for DocumentId {
    fn default() -> (d: DocumentId)
        ensures
            d == DocumentId(1),
            d.wf(),
    {
        DocumentId(1)
    }
}

/// Where the cursor line should land inside the view.
#[derive(Clone, Copy, PartialEq, Eq, Structural, Debug)]
pub enum Align {
    Top,
    Center,
    Bottom,
}

/// How many rows above the cursor line the view's first line should sit:
/// none for `Top`, half the last usable line for `Center`, and the whole
/// last usable line for `Bottom`. The last usable line is one less than the
/// viewport height, floored at zero for a degenerate viewport.
pub open spec fn spec_align_offset(viewport_height: u16, align: Align) -> int {
    let last_line = if viewport_height > 0 {
        viewport_height - 1
    } else {
        0
    };
    match align {
        Align::Top => 0,
        Align::Center => last_line as int / 2,
        Align::Bottom => last_line as int,
    }
}

/// The relative row offset that aligns the cursor line in a viewport of the
/// given height.
pub fn align_offset(viewport_height: u16, align: Align) -> (r: u16)
    ensures
        r == spec_align_offset(viewport_height, align),
{
    let last_line: u16 = if viewport_height > 0 {
        viewport_height - 1
    } else {
        0
    };
    match align {
        Align::Top => 0,
        Align::Center => last_line / 2,
        Align::Bottom => last_line,
    }
}

} // verus!

//! Presentation choices for a debugger front-end: how wide a hex dump is
//! and which emphasis class each printed cell gets. The printing itself
//! is I/O and lives with the host.

use vstd::prelude::*;

verus! {

/// The emphasis classes a front-end renders messages and cells with.
#[derive(Clone, Copy, PartialEq, Eq, Structural, Debug)]
pub enum MessageType {
    Normal,
    Good,
    Bad,
    Important,
}

/// The emphasis a hex-dump cell gets: the primary cell stands out, the
/// `next` cells after it are raised, the rest are plain.
pub open spec fn spec_style_class(index: int, primary_index: int, next_index: int) -> MessageType {
    if index == primary_index {
        MessageType::Good
    } else if primary_index < index && index <= primary_index + next_index {
        MessageType::Important
    } else {
        MessageType::Normal
    }
}

/// Layout state of a terminal front-end.
pub struct Terminal {
    pub line_width: u16,
}

impl Terminal {
    /// A layout printing `width` cells per line.
    pub fn new(width: u16) -> (r: Self)
        ensures
            r.line_width == width,
    {
        Terminal { line_width: width }
    }

    /// The emphasis class of the cell at `index`, given the primary cell
    /// and how many cells after it are raised.
    pub fn style_class(&self, index: usize, primary_index: usize, next_index: usize) -> (r:
        MessageType)
        requires
            primary_index + next_index <= usize::MAX,
        ensures
            r == spec_style_class(index as int, primary_index as int, next_index as int),
    {
        let secondary: usize = primary_index + next_index;
        if index == primary_index {
            MessageType::Good
        } else if index > primary_index && index <= secondary {
            MessageType::Important
        } else {
            MessageType::Normal
        }
    }
}

} // verus!

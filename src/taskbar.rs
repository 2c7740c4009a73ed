//! States of the taskbar progress indicator.

use vstd::prelude::*;
use crate::text::text_is;

verus! {

/// What the taskbar button shows.
#[derive(Debug, Clone, Copy, PartialEq, Eq, Structural)]
pub enum TaskbarState {
    NoProgress,
    Normal,
    Paused,
}

pub open spec fn state_of_tag(tag: Seq<char>) -> TaskbarState {
    if tag == "normal"@ {
        TaskbarState::Normal
    } else if tag == "paused"@ {
        TaskbarState::Paused
    } else {
        TaskbarState::NoProgress
    }
}

/// Progress-state flag of the Windows taskbar interface for each state.
pub open spec fn state_flag(state: TaskbarState) -> u32 {
    match state {
        TaskbarState::NoProgress => 0x00,
        TaskbarState::Normal => 0x02,
        TaskbarState::Paused => 0x08,
    }
}

impl TaskbarState {
    /// The state a frontend tag names: `normal`, `paused`, and anything else
    /// for no progress.
    pub fn from_tag(tag: &String) -> (r: TaskbarState)
        ensures
            r == state_of_tag(tag@),
    {
        if text_is(tag, "normal") {
            TaskbarState::Normal
        } else if text_is(tag, "paused") {
            TaskbarState::Paused
        } else {
            TaskbarState::NoProgress
        }
    }

    pub fn flag(&self) -> (r: u32)
        ensures
            r == state_flag(*self),
    {
        match self {
            TaskbarState::NoProgress => 0x00,
            TaskbarState::Normal => 0x02,
            TaskbarState::Paused => 0x08,
        }
    }
}

} // verus!

//! What closing the main window does: quit the application, or only hide it.
//!
//! The choice is one switch for the whole process. Any caller may set or read
//! it at any time, without a lock: it is a single atomic boolean, written and
//! read in sequentially consistent order, so that a value once set is what
//! every later reader finds. It starts as `false` and is not kept across runs.

use crate::text::same_text;
use std::sync::atomic::AtomicBool;
use std::sync::atomic::Ordering;
use vstd::prelude::*;

verus! {

/// The window whose closing the switch governs.
pub const MAIN_WINDOW: &'static str = "main";

/// The switch: `true` when closing the main window quits the application.
pub struct CloseBehaviorFlag {
    close_to_quit: AtomicBool,
}

impl CloseBehaviorFlag {
    /// A switch in its first state: closing hides the window.
    pub fn new() -> CloseBehaviorFlag {
        CloseBehaviorFlag { close_to_quit: AtomicBool::new(false) }
    }

    /// Sets the switch for every caller.
    pub fn set(&self, value: bool) {
        self.close_to_quit.store(value, Ordering::SeqCst);
    }

    /// Reads the switch as the latest `set` left it.
    pub fn get(&self) -> bool {
        self.close_to_quit.load(Ordering::SeqCst)
    }
}

/// What to do with a request to close a window.
#[derive(Clone, Copy, Debug, PartialEq, Eq, Structural)]
pub enum CloseDecision {
    /// Let the window close as it would.
    Proceed,
    /// End the process.
    Quit,
    /// Cancel the close and hide the window instead.
    Hide,
}

/// The rule for a close request, by the switch as it was read.
pub open spec fn close_rule(window: Seq<char>, close_to_quit: bool) -> CloseDecision {
    if window != MAIN_WINDOW@ {
        CloseDecision::Proceed
    } else if close_to_quit {
        CloseDecision::Quit
    } else {
        CloseDecision::Hide
    }
}

/// Decides what a request to close the window labelled `window` leads to,
/// given the switch as it was just read. Only the main window is governed.
pub fn close_request_decision(window: &str, close_to_quit: bool) -> (decision: CloseDecision)
    ensures
        decision == close_rule(window@, close_to_quit),
{
    if !same_text(window, MAIN_WINDOW) {
        CloseDecision::Proceed
    } else if close_to_quit {
        CloseDecision::Quit
    } else {
        CloseDecision::Hide
    }
}

} // verus!

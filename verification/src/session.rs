//! The reconnect policy of a polling cycle.
//!
//! Each cycle the caller opens the display if it holds no handle, sets the
//! backlight and draws. The driver never retries; this module says what a
//! result means for the handle and for the rest of the cycle.

use vstd::prelude::*;
use crate::error::AX206Error;

verus! {

/// Seconds to wait after a failed attempt to open the display.
pub const OPEN_BACKOFF_SECS: u64 = 10;

/// What a cycle does with the display, in this order.
#[derive(Clone, Copy, Debug, PartialEq, Eq, Structural)]
pub enum Task {
    /// Open the display.
    Open,
    /// Set the backlight.
    SetBacklight,
    /// Draw the picture.
    Draw,
}

/// How a cycle goes on after a task.
#[derive(Clone, Copy, Debug, PartialEq, Eq, Structural)]
pub enum Next {
    /// Go on with the named step of the cycle.
    Then(Task),
    /// The cycle is over. Wait this many seconds, then for the next tick.
    Rest { backoff_secs: u64 },
}

/// What follows from the result of a task.
#[derive(Clone, Copy, Debug, PartialEq, Eq, Structural)]
pub struct Verdict {
    /// Whether the caller holds a usable handle afterwards. When this is
    /// false a handle that was held must be closed and dropped.
    pub connected: bool,
    /// How the cycle goes on.
    pub next: Next,
}

/// Whether the handle is still good after `error`: only a refused
/// brightness leaves it so, because nothing was sent. After any other error
/// the state of the display is unknown.
pub open spec fn keeps_handle(error: AX206Error) -> bool {
    error is InvalidBrightness
}

/// The first task of a cycle.
pub open spec fn first_task(connected: bool) -> Task {
    if connected {
        Task::SetBacklight
    } else {
        Task::Open
    }
}

/// The verdict on the result of `task`.
///
/// Success leads to the next task, and after drawing to the end of the
/// cycle. A failed opening is followed by the backoff. Any other failure
/// ends the cycle; the handle is kept only if the error leaves it good.
pub open spec fn verdict(task: Task, result: Result<(), AX206Error>) -> Verdict {
    match result {
        Ok(()) => Verdict {
            connected: true,
            next: match task {
                Task::Open => Next::Then(Task::SetBacklight),
                Task::SetBacklight => Next::Then(Task::Draw),
                Task::Draw => Next::Rest { backoff_secs: 0 },
            },
        },
        Err(error) => match task {
            Task::Open => Verdict {
                connected: false,
                next: Next::Rest { backoff_secs: OPEN_BACKOFF_SECS },
            },
            _ => Verdict { connected: keeps_handle(error), next: Next::Rest { backoff_secs: 0 } },
        },
    }
}

/// Says whether the handle is still good after `error`.
pub fn handle_survives(error: AX206Error) -> (keep: bool)
    ensures
        keep == keeps_handle(error),
{
    match error {
        AX206Error::InvalidBrightness(_) => true,
        _ => false,
    }
}

/// Says with which task a cycle begins.
pub fn begin_cycle(connected: bool) -> (task: Task)
    ensures
        task == first_task(connected),
{
    if connected {
        Task::SetBacklight
    } else {
        Task::Open
    }
}

/// Judges the result of a task.
pub fn judge(task: Task, result: Result<(), AX206Error>) -> (v: Verdict)
    ensures
        v == verdict(task, result),
{
    match result {
        Ok(()) => Verdict {
            connected: true,
            next: match task {
                Task::Open => Next::Then(Task::SetBacklight),
                Task::SetBacklight => Next::Then(Task::Draw),
                Task::Draw => Next::Rest { backoff_secs: 0 },
            },
        },
        Err(error) => match task {
            Task::Open => Verdict {
                connected: false,
                next: Next::Rest { backoff_secs: OPEN_BACKOFF_SECS },
            },
            _ => Verdict { connected: handle_survives(error), next: Next::Rest { backoff_secs: 0 } },
        },
    }
}

/// After a failed command, a lost transfer or a missing device the handle
/// is gone and nothing more is tried in this cycle, so the next cycle
/// begins by opening the display again. A refused brightness costs the
/// rest of the cycle and nothing else.
pub proof fn lemma_failure_leads_to_reopening(task: Task, error: AX206Error)
    ensures
        verdict(task, Err(error)).next is Rest,
        !(error is InvalidBrightness) ==> !verdict(task, Err(error)).connected && first_task(
            verdict(task, Err(error)).connected,
        ) == Task::Open,
        error is InvalidBrightness && task != Task::Open ==> verdict(task, Err(error)).connected,
{
}

} // verus!

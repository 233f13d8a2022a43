//! Task monitoring: how many tasks fit the terminal, and the lines shown while one
//! task is awaited.
use vstd::prelude::*;

use crate::text::{display_width, push_char, push_str, spaces, str_width};
use crate::commands::RequestError;

verus! {

/// Lines the task monitor needs besides the task rows: the title and counts, and the
/// table's separators and header.
pub const MONITOR_RESERVED_ROWS: usize = 6;

/// How many task rows the monitor shows on a terminal of `term_rows` rows: what is
/// left after the reserved lines, and at least one.
pub open spec fn monitor_rows_spec(term_rows: int) -> int {
    if term_rows > 6 {
        term_rows - 6
    } else {
        1
    }
}

/// How many task rows the monitor shows (see `monitor_rows_spec`).
pub fn monitor_allowed_rows(term_rows: usize) -> (r: usize)
    ensures
        r == monitor_rows_spec(term_rows as int),
{
    if term_rows > MONITOR_RESERVED_ROWS {
        term_rows - MONITOR_RESERVED_ROWS
    } else {
        1
    }
}

/// The blank text that erases a status line: one space per column it took.
pub fn clear_line_for(line: &str) -> (r: String)
    ensures
        r@ == spaces(display_width(line@) as int),
{
    let w = str_width(line);
    let mut r = String::new();
    let mut i: usize = 0;
    while i < w
        invariant
            i <= w,
            r@ == spaces(i as int),
        decreases w - i,
    {
        push_char(&mut r, ' ');
        assert(r@ =~= spaces(i + 1));
        i = i + 1;
    }
    r
}

/// The last line shown when an awaited task is no longer found: it completed if it
/// was seen before, else it was not found or had already completed.
pub open spec fn wait_end_text(task_id: Seq<char>, task_found: bool) -> Seq<char> {
    if task_found {
        "Task "@ + task_id + " completed!"@
    } else {
        "Task "@ + task_id + " not found, or already completed."@
    }
}

/// The last line shown when an awaited task is no longer found (see `wait_end_text`);
/// `task_id` is the task's identifier as shown.
pub fn wait_end_line(task_id: &str, task_found: bool) -> (r: String)
    ensures
        r@ == wait_end_text(task_id@, task_found),
{
    let mut r = String::from_str("Task ");
    push_str(&mut r, task_id);
    if task_found {
        push_str(&mut r, " completed!");
    } else {
        push_str(&mut r, " not found, or already completed.");
    }
    r
}


/// What waiting for a task does after one request for the task.
#[derive(Clone, Copy, Debug, PartialEq, Eq, Structural)]
pub enum WaitOutcome {
    /// The task was received: show its line, then ask again.
    Continue,
    /// The vault no longer knows the task: show the last line (see `wait_end_text`)
    /// and end successfully.
    Done,
    /// The request failed otherwise: report the error and end with a failure.
    Fail,
}

/// One step of waiting for a task: from whether the task was seen before and the
/// answer to the request for it, whether it has been seen now and what to do. A "not
/// found" answer (status 404) ends the wait.
pub open spec fn wait_step_spec(task_found: bool, answer: Result<(), RequestError>) -> (bool, WaitOutcome) {
    match answer {
        Ok(_) => (true, WaitOutcome::Continue),
        Err(RequestError::ApiError { status, .. }) => if status == 404 {
            (task_found, WaitOutcome::Done)
        } else {
            (task_found, WaitOutcome::Fail)
        },
        Err(_) => (task_found, WaitOutcome::Fail),
    }
}

/// One step of waiting for a task (see `wait_step_spec`); `answer` is `Ok` when the
/// task was received.
pub fn wait_for_task_step(task_found: bool, answer: &Result<(), RequestError>) -> (r: (bool, WaitOutcome))
    ensures
        r == wait_step_spec(task_found, *answer),
{
    match answer {
        Ok(_) => (true, WaitOutcome::Continue),
        Err(RequestError::ApiError { status, .. }) => {
            if *status == 404 {
                (task_found, WaitOutcome::Done)
            } else {
                (task_found, WaitOutcome::Fail)
            }
        },
        Err(_) => (task_found, WaitOutcome::Fail),
    }
}


/// The task subcommands.
pub enum TaskCommand {
    /// Lists the tasks.
    List { csv: bool },
    /// Monitors the tasks.
    Monitor,
    /// Prints a task's status.
    Get { task: String },
    /// Waits for a task to finish.
    Wait { task: String },
}

/// Waiting for a task: a received task is seen and the wait goes on; a "not found"
/// answer (status 404 with an error body) ends the wait successfully; any other
/// failure ends it with a failure. A task once seen stays seen.
pub proof fn law_wait_step(task_found: bool, status: u16, code: String, message: String, e: RequestError)
    ensures
        wait_step_spec(task_found, Ok(())) == (true, WaitOutcome::Continue),
        wait_step_spec(task_found, Err(RequestError::ApiError { status, code, message })) == (task_found, if status
            == 404 {
            WaitOutcome::Done
        } else {
            WaitOutcome::Fail
        }),
        !(e is ApiError) ==> wait_step_spec(task_found, Err(e)) == (task_found, WaitOutcome::Fail),
        task_found ==> wait_step_spec(task_found, Err(e)).0,
{
}

} // verus!

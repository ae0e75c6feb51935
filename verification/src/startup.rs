//! What the shell does once the runtime hands control back.

use vstd::prelude::*;

verus! {

/// How the runtime's blocking run call ended.
#[derive(Clone, Copy, Debug, PartialEq, Eq, Structural)]
pub enum RunOutcome {
    /// The event loop ran and returned.
    Returned,
    /// The runtime could not start.
    StartFailed,
}

/// What the process does after the run call.
#[derive(Clone, Copy, Debug, PartialEq, Eq, Structural)]
pub enum Exit {
    /// Leave normally.
    Normal,
    /// Terminate at once, reporting the start failure.
    Abort,
}

/// The exit that follows an outcome: a failed start aborts, and nothing else does.
pub open spec fn exit_for(outcome: RunOutcome) -> Exit {
    match outcome {
        RunOutcome::Returned => Exit::Normal,
        RunOutcome::StartFailed => Exit::Abort,
    }
}

/// Decides what the process does after the run call ended with `outcome`.
///
/// There is no recovery path: a start failure always leads to `Exit::Abort`.
pub fn exit_after(outcome: RunOutcome) -> (exit: Exit)
    ensures
        exit == exit_for(outcome),
        exit == Exit::Abort <==> outcome == RunOutcome::StartFailed,
{
    match outcome {
        RunOutcome::Returned => Exit::Normal,
        RunOutcome::StartFailed => Exit::Abort,
    }
}

/// Appends `tail` to `text` with `String::push_str`: what `text` held stays in
/// place and the characters of `tail` follow it. Trusted, not proved.
#[verifier::external_body]
fn push_str(text: &mut String, tail: &str)
    ensures
        final(text)@ == old(text)@ + tail@,
{
    text.push_str(tail);
}

/// The report the process terminates with when the runtime fails to start:
/// the fixed text, a colon, a space, and then `detail`, the rendering of the
/// runtime's error, unchanged.
pub fn fatal_report(detail: &str) -> (report: String)
    ensures
        report@ == "error while running tauri application: "@ + detail@,
{
    let mut report = "error while running tauri application: ".to_owned();
    push_str(&mut report, detail);
    report
}

} // verus!

//! The progress reports that the front end shows for each step of the
//! identifier reset, and the message of a failed step.

use vstd::prelude::*;

use crate::text::joined;

verus! {

/// A report on one step: its identifier and its status (`in-progress`,
/// `completed` or `error`).
pub struct StepStatusEvent {
    pub step_id: String,
    pub status: String,
}

impl View for StepStatusEvent {
    type V = (Seq<char>, Seq<char>);

    open spec fn view(&self) -> (Seq<char>, Seq<char>) {
        (self.step_id@, self.status@)
    }
}

/// The report that a step has begun.
pub open spec fn started(step_id: Seq<char>) -> (Seq<char>, Seq<char>) {
    (step_id, "in-progress"@)
}

/// The report that a step has succeeded.
pub open spec fn completed(step_id: Seq<char>) -> (Seq<char>, Seq<char>) {
    (step_id, "completed"@)
}

/// The report that a step has failed.
pub open spec fn failed(step_id: Seq<char>) -> (Seq<char>, Seq<char>) {
    (step_id, "error"@)
}

/// The message of a failed step.
pub open spec fn step_failure(step_name: Seq<char>, error: Seq<char>) -> Seq<char> {
    "步骤'"@ + step_name + "'执行失败: "@ + error
}

impl StepStatusEvent {
    /// The `error` flag sent with the report: whether the status is `error`.
    pub fn is_error(&self) -> (res: bool)
        ensures
            res == (self.status@ == "error"@),
    {
        let error = String::from_str("error");
        self.status == error
    }
}

fn report(step_id: &str, status: &str) -> (res: StepStatusEvent)
    ensures
        res@ == (step_id@, status@),
{
    StepStatusEvent { step_id: String::from_str(step_id), status: String::from_str(status) }
}

/// The report sent as a step begins.
pub fn start_step(step_id: &str) -> (res: StepStatusEvent)
    ensures
        res@ == started(step_id@),
{
    report(step_id, "in-progress")
}

/// Ends a step with the outcome of its work: a success passes through with
/// a `completed` report; a failure is reported as `error` and its message
/// says which step failed and why.
pub fn finish_step<T>(step_name: &str, step_id: &str, outcome: Result<T, String>) -> (res: (StepStatusEvent, Result<T, String>))
    ensures
        outcome is Ok ==> res.0@ == completed(step_id@) && res.1 == outcome,
        outcome is Err ==> res.0@ == failed(step_id@),
        outcome matches Err(e) ==> res.1 matches Err(m) && m@ == step_failure(step_name@, e@),
{
    match outcome {
        Ok(v) => (report(step_id, "completed"), Ok(v)),
        Err(e) => {
            let head = joined("步骤'", step_name);
            let head = joined(head.as_str(), "'执行失败: ");
            (report(step_id, "error"), Err(joined(head.as_str(), e.as_str())))
        },
    }
}

} // verus!

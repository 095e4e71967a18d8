//! What the service writes to its log when one of its tasks ends.

use crate::text::joined;
use vstd::prelude::*;

verus! {

/// How a long-running task of the service ended.
#[derive(Debug, PartialEq, Eq)]
pub enum TaskExit {
    /// The task returned.
    Completed,
    /// The task returned an error, shown here.
    Failed(String),
    /// The task was cancelled or panicked; the runtime's message is here.
    Aborted(String),
}

/// The severity of a log line.
#[derive(Debug, Clone, Copy, PartialEq, Eq, Structural)]
pub enum LogLevel {
    Info,
    Error,
}

/// One line for the log.
#[derive(Debug, PartialEq, Eq)]
pub struct ExitReport {
    pub level: LogLevel,
    pub message: String,
    /// The error behind the line, if there is one.
    pub cause: Option<String>,
}

/// The line that reports the end of the task `task_name`: information
/// where the task returned, an error with its cause where it failed or did
/// not run to its end.
pub fn report_exit(task_name: &str, outcome: &TaskExit) -> (report: ExitReport)
    ensures
        match *outcome {
            TaskExit::Completed => report.level == LogLevel::Info && report.message@ == task_name@
                + " has exited"@ && report.cause is None,
            TaskExit::Failed(e) => report.level == LogLevel::Error && report.message@ == task_name@
                + " failed"@ && (report.cause matches Some(cause) && cause@ == e@),
            TaskExit::Aborted(e) => report.level == LogLevel::Error && report.message@ == task_name@
                + "' task failed to complete"@ && (report.cause matches Some(cause) && cause@ == e@),
        },
{
    match outcome {
        TaskExit::Completed => ExitReport {
            level: LogLevel::Info,
            message: joined(task_name, " has exited"),
            cause: None,
        },
        TaskExit::Failed(e) => ExitReport {
            level: LogLevel::Error,
            message: joined(task_name, " failed"),
            cause: Some(e.clone()),
        },
        TaskExit::Aborted(e) => ExitReport {
            level: LogLevel::Error,
            message: joined(task_name, "' task failed to complete"),
            cause: Some(e.clone()),
        },
    }
}

} // verus!

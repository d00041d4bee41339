//! Errors that the resource back ends report, with their messages.
use vstd::prelude::*;

verus! {

/// An error reported by a quantum resource back end.
#[derive(Debug, Clone)]
pub enum QrmiError {
    /// A required environment variable is missing.
    EnvVarNotSet { name: String },
    /// The task timeout is not a decimal number of seconds; the parser's message.
    InvalidTimeout { detail: String },
    /// The payload is not meant for this kind of resource; the message names
    /// the payload.
    UnsupportedPayload { message: String },
    /// The program identifier names no primitive.
    UnknownProgramId { program_id: String },
    /// The primitive input is not JSON; the parser's message.
    InvalidJson { detail: String },
    /// The task failed, with the reason the service gave.
    TaskFailed { task_id: String, code: String, message: String, solution: String },
    /// The task was cancelled.
    TaskCancelled { task_id: String },
    /// The task is still running.
    TaskRunning { task_id: String },
    /// The job has not completed; its status as the service names it.
    TaskNotCompleted { status: String },
    /// The session mode is neither `batch` nor `dedicated`.
    InvalidSessionMode { mode: String },
    /// No S3 bucket is configured.
    S3NotConfigured,
    /// The job was cancelled or failed, so it has no result.
    ResultNotSucceeded,
    /// The job is still running, so it has no result yet.
    ResultNotCompleted,
    /// The job is still running, so its logs are not complete.
    LogsNotFinal,
    /// A batch holds more than one job.
    MultipleJobsInBatch,
    /// A batch has no results.
    NoResultsFound,
    /// The service answered with an error status.
    HttpStatus { status: String, body: String },
    /// The service created no session.
    SessionNotCreated,
    /// Cancelling a session failed with this status.
    CancelSessionFailed { status: String },
    /// Closing a session failed with this status.
    CloseSessionFailed { status: String },
    /// Reading a session failed with this status.
    SessionDetailsFailed { status: String },
    /// A stored result is not UTF-8 text; the decoder's message.
    InvalidUtf8 { detail: String },
}

impl QrmiError {
    /// The human-readable message of the error.
    pub open spec fn spec_message(self) -> Seq<char> {
        match self {
            QrmiError::EnvVarNotSet { name } => name@ + " is not set: environment variable not found"@,
            QrmiError::InvalidTimeout { detail } => "Failed to parse timeout value: "@ + detail@,
            QrmiError::UnsupportedPayload { message } => message@,
            QrmiError::UnknownProgramId { program_id } => "Unknown program ID is specified. "@
                + program_id@,
            QrmiError::InvalidJson { detail } => detail@,
            QrmiError::TaskFailed { task_id, code, message, solution } => "Unable to retrieve result for task "@
                + task_id@ + ". Task failed. code: "@ + code@ + ", message: "@ + message@
                + ", solution: "@ + solution@,
            QrmiError::TaskCancelled { task_id } => "Unable to retrieve result for task "@ + task_id@
                + ". Task was cancelled."@,
            QrmiError::TaskRunning { task_id } => "Unable to retrieve result for task "@ + task_id@
                + ". Task is running."@,
            QrmiError::TaskNotCompleted { status } => "Task is not completed. Current status: "@
                + status@,
            QrmiError::InvalidSessionMode { mode } => "Invalid session mode: "@ + mode@,
            QrmiError::S3NotConfigured => "S3 bucket is not configured. Use ClientBuilder.with_s3_bucket() to use this function."@,
            QrmiError::ResultNotSucceeded => "Result is not available since job was not succeeded."@,
            QrmiError::ResultNotCompleted => "Result is not available until the job is completed."@,
            QrmiError::LogsNotFinal => "Logs are not available until the job is in its final state."@,
            QrmiError::MultipleJobsInBatch => "Unexpected multiple jobs in one Pasqal cloud batch"@,
            QrmiError::NoResultsFound => "No results found"@,
            QrmiError::HttpStatus { status, body } => "Status: "@ + status@ + ", Fail "@ + body@,
            QrmiError::SessionNotCreated => "No session created: no content returned"@,
            QrmiError::CancelSessionFailed { status } => "Failed to cancel session: "@ + status@,
            QrmiError::CloseSessionFailed { status } => "Failed to close session: "@ + status@,
            QrmiError::SessionDetailsFailed { status } => "Failed to get session details: "@
                + status@,
            QrmiError::InvalidUtf8 { detail } => detail@,
        }
    }

    /// Returns the human-readable message of the error.
    pub fn message(&self) -> (r: String)
        ensures
            r@ == self.spec_message(),
    {
        let mut r = String::new();
        match self {
            QrmiError::EnvVarNotSet { name } => {
                r.append(name.as_str());
                r.append(" is not set: environment variable not found");
            },
            QrmiError::InvalidTimeout { detail } => {
                r.append("Failed to parse timeout value: ");
                r.append(detail.as_str());
            },
            QrmiError::UnsupportedPayload { message } => r.append(message.as_str()),
            QrmiError::UnknownProgramId { program_id } => {
                r.append("Unknown program ID is specified. ");
                r.append(program_id.as_str());
            },
            QrmiError::InvalidJson { detail } => r.append(detail.as_str()),
            QrmiError::TaskFailed { task_id, code, message, solution } => {
                r.append("Unable to retrieve result for task ");
                r.append(task_id.as_str());
                r.append(". Task failed. code: ");
                r.append(code.as_str());
                r.append(", message: ");
                r.append(message.as_str());
                r.append(", solution: ");
                r.append(solution.as_str());
            },
            QrmiError::TaskCancelled { task_id } => {
                r.append("Unable to retrieve result for task ");
                r.append(task_id.as_str());
                r.append(". Task was cancelled.");
            },
            QrmiError::TaskRunning { task_id } => {
                r.append("Unable to retrieve result for task ");
                r.append(task_id.as_str());
                r.append(". Task is running.");
            },
            QrmiError::TaskNotCompleted { status } => {
                r.append("Task is not completed. Current status: ");
                r.append(status.as_str());
            },
            QrmiError::InvalidSessionMode { mode } => {
                r.append("Invalid session mode: ");
                r.append(mode.as_str());
            },
            QrmiError::S3NotConfigured => r.append(
                "S3 bucket is not configured. Use ClientBuilder.with_s3_bucket() to use this function.",
            ),
            QrmiError::ResultNotSucceeded => r.append(
                "Result is not available since job was not succeeded.",
            ),
            QrmiError::ResultNotCompleted => r.append(
                "Result is not available until the job is completed.",
            ),
            QrmiError::LogsNotFinal => r.append(
                "Logs are not available until the job is in its final state.",
            ),
            QrmiError::MultipleJobsInBatch => r.append(
                "Unexpected multiple jobs in one Pasqal cloud batch",
            ),
            QrmiError::NoResultsFound => r.append("No results found"),
            QrmiError::HttpStatus { status, body } => {
                r.append("Status: ");
                r.append(status.as_str());
                r.append(", Fail ");
                r.append(body.as_str());
            },
            QrmiError::SessionNotCreated => r.append("No session created: no content returned"),
            QrmiError::CancelSessionFailed { status } => {
                r.append("Failed to cancel session: ");
                r.append(status.as_str());
            },
            QrmiError::CloseSessionFailed { status } => {
                r.append("Failed to close session: ");
                r.append(status.as_str());
            },
            QrmiError::SessionDetailsFailed { status } => {
                r.append("Failed to get session details: ");
                r.append(status.as_str());
            },
            QrmiError::InvalidUtf8 { detail } => r.append(detail.as_str()),
        }
        r
    }
}

} // verus!

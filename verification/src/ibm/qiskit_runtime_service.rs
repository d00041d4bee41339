//! QRMI for IBM Qiskit Runtime Service: configuration, token renewal,
//! session reuse, job requests and the reading of job states.
use vstd::prelude::*;

use crate::cext::ResourceMetadata;
use crate::error::QrmiError;
use crate::json::{json_error_text, json_shape, json_value, parse_json, JsonShape};
use crate::models::{spec_unsupported_payload, unsupported_payload, Payload, TaskStatus};
use crate::qiskit_runtime_client::auth::{apply_token, check_token, is_token_request, spec_token_needs_refresh, trunc_div, trunc_div_i64, TokenRequest};
use crate::qiskit_runtime_client::models::{CreateJobRequest, CreateSessionRequest, JobResponseStatus, SessionMode};
use crate::text::{lowercase, parse_u64, parsed_u64, text_eq, to_lowercase};

verus! {

/// The settings of a Qiskit Runtime Service resource, as read from its
/// environment variables `<resource>_QRMI_IBM_QRS_*`.
#[derive(Debug, Clone)]
pub struct QrsEnvironment {
    /// `QRMI_IBM_QRS_ENDPOINT`: service endpoint URL.
    pub endpoint: String,
    /// `QRMI_IBM_QRS_IAM_ENDPOINT`: IAM endpoint URL.
    pub iam_endpoint: String,
    /// `QRMI_IBM_QRS_IAM_APIKEY`: IAM API key.
    pub api_key: String,
    /// `QRMI_IBM_QRS_SERVICE_CRN`: service instance CRN.
    pub service_crn: String,
    /// `QRMI_IBM_QRS_SESSION_MODE`, if set.
    pub session_mode: Option<String>,
    /// `QRMI_IBM_QRS_SESSION_MAX_TTL`, if set.
    pub session_max_ttl: Option<String>,
    /// `QRMI_IBM_QRS_TIMEOUT_SECONDS`, if set.
    pub timeout_seconds: Option<String>,
    /// `QRMI_IBM_QRS_SESSION_ID`, if set.
    pub session_id: Option<String>,
}

/// QRMI implementation for IBM Qiskit Runtime Service.
#[derive(Debug, Clone)]
pub struct IBMQiskitRuntimeService {
    /// Service endpoint URL.
    pub base_path: String,
    /// Current IAM bearer token.
    pub bearer_access_token: Option<String>,
    /// Service instance CRN sent with every request.
    pub crn: Option<String>,
    /// The backend this resource stands for.
    pub backend_name: String,
    /// The session that jobs run in.
    pub session_id: Option<String>,
    /// Cost of each job, in seconds.
    pub timeout_secs: Option<u64>,
    /// Session mode as configured.
    pub session_mode: String,
    /// Maximum time to live of new sessions, in seconds.
    pub session_max_ttl: u64,
    /// IAM API key.
    pub api_key: String,
    /// IAM endpoint URL.
    pub iam_endpoint: String,
    /// Unix time at which the bearer token expires.
    pub token_expiration: i64,
    /// Lifetime of the bearer token, in seconds.
    pub token_lifetime: i64,
}

/// Default maximum time to live of a session, in seconds.
pub open spec fn default_session_max_ttl() -> u64 {
    28800
}

/// The cost of a job configured by an optional text.
pub open spec fn spec_timeout_secs(text: Option<String>) -> Option<u64> {
    match text {
        Some(t) => parsed_u64(t@),
        None => None,
    }
}

/// The maximum time to live of sessions configured by an optional text.
pub open spec fn spec_session_max_ttl(text: Option<String>) -> u64 {
    match text {
        Some(t) => match parsed_u64(t@) {
            Some(v) => v,
            None => default_session_max_ttl(),
        },
        None => default_session_max_ttl(),
    }
}

/// The session mode configured by an optional text.
pub open spec fn spec_session_mode(text: Option<String>) -> Seq<char> {
    match text {
        Some(m) => m@,
        None => "dedicated"@,
    }
}

/// Maps the state of a job to the state of a task.
pub open spec fn spec_task_status(status: JobResponseStatus) -> TaskStatus {
    match status {
        JobResponseStatus::Running => TaskStatus::Running,
        JobResponseStatus::Queued => TaskStatus::Queued,
        JobResponseStatus::Completed => TaskStatus::Completed,
        JobResponseStatus::Cancelled => TaskStatus::Cancelled,
        JobResponseStatus::CancelledRanTooLong => TaskStatus::Cancelled,
        JobResponseStatus::Failed => TaskStatus::Failed,
    }
}

/// A session is kept when more than a hundredth of its maximum time to live
/// is still active; an unknown value counts as 1.
pub open spec fn spec_keep_session(active_ttl: Option<i64>, max_ttl: Option<i64>) -> bool {
    trunc_div(max_ttl.unwrap_or(1) as int, 100) < active_ttl.unwrap_or(1)
}

/// The requests that stop a job: a cancellation first, when `cancel`, then a
/// deletion, when `delete`.
#[derive(Debug, Clone, Copy, PartialEq, Eq, Structural)]
pub struct StopPlan {
    pub cancel: bool,
    pub delete: bool,
}

/// What happened since the last step of `acquire`.
#[derive(Debug, Clone)]
pub enum AcquireEvent {
    /// `acquire` was called.
    Start,
    /// The service described the current session.
    SessionInformation { active_ttl: Option<i64>, max_ttl: Option<i64> },
    /// The current session was closed.
    SessionClosed,
    /// The service created a session.
    SessionCreated { id: String },
}

/// What `acquire` does next.
#[derive(Debug)]
pub enum AcquireAction {
    /// Ask the service about this session.
    GetSessionInformation { session_id: String },
    /// Close this session.
    CloseSession { session_id: String },
    /// Create a session.
    CreateSession { request: CreateSessionRequest },
    /// The resource is acquired with this session.
    Acquired { session_id: String },
    /// Acquisition failed.
    Failed { error: QrmiError },
}

impl IBMQiskitRuntimeService {
    /// Constructs a QRS service instance for `backend_name` from its settings:
    /// session mode `dedicated` and a maximum time to live of 28800 seconds
    /// unless set, a job cost only when set to a number, no token yet.
    pub fn new(backend_name: &str, env: QrsEnvironment) -> (r: Self)
        ensures
            r.base_path == env.endpoint,
            r.bearer_access_token is None,
            r.crn == Some(env.service_crn),
            r.backend_name@ == backend_name@,
            r.session_id == env.session_id,
            r.timeout_secs == spec_timeout_secs(env.timeout_seconds),
            r.session_mode@ == spec_session_mode(env.session_mode),
            r.session_max_ttl == spec_session_max_ttl(env.session_max_ttl),
            r.api_key == env.api_key,
            r.iam_endpoint == env.iam_endpoint,
            r.token_expiration == 0,
            r.token_lifetime == 0,
    {
        let session_mode = match env.session_mode {
            Some(m) => m,
            None => String::from_str("dedicated"),
        };
        let session_max_ttl = match &env.session_max_ttl {
            Some(t) => match parse_u64(t.as_str()) {
                Ok(v) => v,
                Err(_) => 28800,
            },
            None => 28800,
        };
        let timeout_secs = match &env.timeout_seconds {
            Some(t) => match parse_u64(t.as_str()) {
                Ok(v) => Some(v),
                Err(_) => None,
            },
            None => None,
        };
        IBMQiskitRuntimeService {
            base_path: env.endpoint,
            bearer_access_token: None,
            crn: Some(env.service_crn),
            backend_name: String::from_str(backend_name),
            session_id: env.session_id,
            timeout_secs,
            session_mode,
            session_max_ttl,
            api_key: env.api_key,
            iam_endpoint: env.iam_endpoint,
            token_expiration: 0,
            token_lifetime: 0,
        }
    }

    /// Returns the token request to send before a call at time `now`, if the
    /// bearer token is due for renewal.
    pub fn token_refresh(&self, now: i64) -> (r: Option<TokenRequest>)
        ensures
            r is Some <==> spec_token_needs_refresh(
                now as int,
                self.token_expiration as int,
                self.token_lifetime as int,
            ),
            r matches Some(req) ==> is_token_request(req, self.api_key@, self.iam_endpoint@),
    {
        check_token(self.api_key.as_str(), self.iam_endpoint.as_str(), now, self.token_expiration, self.token_lifetime)
    }

    /// Stores a renewed bearer token; nothing else changes.
    pub fn store_token(&mut self, fetched: (String, i64, i64))
        ensures
            final(self).bearer_access_token == Some(fetched.0),
            final(self).token_expiration == fetched.1,
            final(self).token_lifetime == fetched.2,
            final(self).base_path == old(self).base_path,
            final(self).crn == old(self).crn,
            final(self).backend_name == old(self).backend_name,
            final(self).session_id == old(self).session_id,
            final(self).timeout_secs == old(self).timeout_secs,
            final(self).session_mode == old(self).session_mode,
            final(self).session_max_ttl == old(self).session_max_ttl,
            final(self).api_key == old(self).api_key,
            final(self).iam_endpoint == old(self).iam_endpoint,
    {
        apply_token(&mut self.bearer_access_token, &mut self.token_expiration, &mut self.token_lifetime, fetched);
    }

    /// Whether a backend whose reported status is `status` is accessible:
    /// its status, lower-cased, is `active` or `online`; a missing status
    /// reads as `unknown`.
    pub fn backend_accessible(status: Option<String>) -> (r: bool)
        ensures
            r == ({
                let s = match status { Some(s) => s@, None => "unknown"@ };
                lowercase(s) == "active"@ || lowercase(s) == "online"@
            }),
    {
        let s = match status {
            Some(s) => s,
            None => String::from_str("unknown"),
        };
        let lower = to_lowercase(s.as_str());
        text_eq(lower.as_str(), "active") || text_eq(lower.as_str(), "online")
    }

    /// Returns true when a session with these times to live is kept.
    pub fn keep_session(active_ttl: Option<i64>, max_ttl: Option<i64>) -> (r: bool)
        ensures
            r == spec_keep_session(active_ttl, max_ttl),
    {
        let active = match active_ttl {
            Some(a) => a,
            None => 1,
        };
        let max = match max_ttl {
            Some(m) => m,
            None => 1,
        };
        trunc_div_i64(max, 100) < active
    }

    /// The session mode, read case-insensitively.
    pub open spec fn spec_mode(self) -> Option<SessionMode> {
        if lowercase(self.session_mode@) == "batch"@ {
            Some(SessionMode::Batch)
        } else if lowercase(self.session_mode@) == "dedicated"@ {
            Some(SessionMode::Dedicated)
        } else {
            None
        }
    }

    /// Returns the session mode, or the error naming the lower-cased mode
    /// when it is neither `batch` nor `dedicated`.
    pub fn session_mode_value(&self) -> (r: Result<SessionMode, QrmiError>)
        ensures
            match self.spec_mode() {
                Some(m) => r == Ok::<SessionMode, QrmiError>(m),
                None => r matches Err(QrmiError::InvalidSessionMode { mode }) && mode@ == lowercase(
                    self.session_mode@,
                ),
            },
    {
        let lower = to_lowercase(self.session_mode.as_str());
        if text_eq(lower.as_str(), "batch") {
            Ok(SessionMode::Batch)
        } else if text_eq(lower.as_str(), "dedicated") {
            Ok(SessionMode::Dedicated)
        } else {
            Err(QrmiError::InvalidSessionMode { mode: lower })
        }
    }

    /// The action that opens a new session: the request for a session of the
    /// configured mode and time to live on this backend, or the failure
    /// naming a mode that is neither `batch` nor `dedicated`.
    pub open spec fn spec_creates_session(self, r: AcquireAction) -> bool {
        match self.spec_mode() {
            Some(m) => r matches AcquireAction::CreateSession { request } && request.max_ttl == Some(
                self.session_max_ttl,
            ) && request.mode == m && request.backend == self.backend_name,
            None => r matches AcquireAction::Failed { error: QrmiError::InvalidSessionMode { mode } }
                && mode@ == lowercase(self.session_mode@),
        }
    }

    /// Creates the request for a new session, or fails on a bad mode.
    fn create_or_fail(&self) -> (r: AcquireAction)
        ensures
            self.spec_creates_session(r),
    {
        match self.session_mode_value() {
            Ok(mode) => AcquireAction::CreateSession {
                request: CreateSessionRequest {
                    max_ttl: Some(self.session_max_ttl),
                    mode,
                    backend: self.backend_name.clone(),
                },
            },
            Err(error) => AcquireAction::Failed { error },
        }
    }

    /// One step of `acquire`: an existing session is reused while enough of
    /// its time to live remains, otherwise it is closed and a new session is
    /// created in the configured mode.
    pub fn acquire_step(&mut self, event: AcquireEvent) -> (r: AcquireAction)
        ensures
            final(self).backend_name == old(self).backend_name,
            final(self).session_max_ttl == old(self).session_max_ttl,
            final(self).session_mode == old(self).session_mode,
            final(self).timeout_secs == old(self).timeout_secs,
            final(self).bearer_access_token == old(self).bearer_access_token,
            final(self).token_expiration == old(self).token_expiration,
            final(self).token_lifetime == old(self).token_lifetime,
            r matches AcquireAction::Acquired { session_id } ==> final(self).session_id == Some(session_id),
            match event {
                AcquireEvent::Start => match old(self).session_id {
                    Some(id) => final(self).session_id == old(self).session_id
                        && r == (AcquireAction::GetSessionInformation { session_id: id }),
                    None => final(self).session_id is None && old(self).spec_creates_session(r),
                },
                AcquireEvent::SessionInformation { active_ttl, max_ttl } => match old(self).session_id {
                    Some(id) => final(self).session_id == old(self).session_id && (if spec_keep_session(
                        active_ttl,
                        max_ttl,
                    ) {
                        r == (AcquireAction::Acquired { session_id: id })
                    } else {
                        r == (AcquireAction::CloseSession { session_id: id })
                    }),
                    None => final(self).session_id is None && old(self).spec_creates_session(r),
                },
                AcquireEvent::SessionClosed => final(self).session_id is None && old(self).spec_creates_session(r),
                AcquireEvent::SessionCreated { id } => final(self).session_id == Some(id) && r == (
                AcquireAction::Acquired { session_id: id }),
            },
    {
        match event {
            AcquireEvent::Start => match &self.session_id {
                Some(id) => AcquireAction::GetSessionInformation { session_id: id.clone() },
                None => self.create_or_fail(),
            },
            AcquireEvent::SessionInformation { active_ttl, max_ttl } => match &self.session_id {
                Some(id) => {
                    if Self::keep_session(active_ttl, max_ttl) {
                        AcquireAction::Acquired { session_id: id.clone() }
                    } else {
                        AcquireAction::CloseSession { session_id: id.clone() }
                    }
                },
                None => self.create_or_fail(),
            },
            AcquireEvent::SessionClosed => {
                self.session_id = None;
                self.create_or_fail()
            },
            AcquireEvent::SessionCreated { id } => {
                self.session_id = Some(id.clone());
                AcquireAction::Acquired { session_id: id }
            },
        }
    }

    /// After a session was closed on `release`, no session is current.
    pub fn session_released(&mut self)
        ensures
            final(self).session_id is None,
            final(self).backend_name == old(self).backend_name,
            final(self).session_mode == old(self).session_mode,
            final(self).session_max_ttl == old(self).session_max_ttl,
            final(self).timeout_secs == old(self).timeout_secs,
    {
        self.session_id = None;
    }

    /// Builds the job request for `payload`: a Qiskit primitive payload runs
    /// on this backend, in the current session, with the configured cost; its
    /// input becomes the job parameters when it is a JSON object.
    pub fn job_request(&self, payload: Payload) -> (r: Result<CreateJobRequest, QrmiError>)
        ensures
            match payload {
                Payload::QiskitPrimitive { input, program_id } => if json_shape(input@)
                    == JsonShape::Invalid {
                    r matches Err(QrmiError::InvalidJson { .. })
                } else {
                    r matches Ok(req) && req.program_id == program_id && req.backend
                        == self.backend_name && req.runtime is None && req.tags is None
                        && req.log_level is None && req.cost == self.timeout_secs && req.session_id
                        == self.session_id && req.params == (if json_shape(input@) == JsonShape::Object {
                        Some(json_value(input@))
                    } else {
                        None::<serde_json::Value>
                    })
                },
                Payload::PasqalCloud { .. } => r matches Err(QrmiError::UnsupportedPayload { message })
                    && message@ == spec_unsupported_payload(": "@, payload),
            },
    {
        match payload {
            Payload::QiskitPrimitive { input, program_id } => match parse_json(input.as_str()) {
                Ok((value, is_object)) => {
                    let params = if is_object {
                        Some(value)
                    } else {
                        None
                    };
                    Ok(
                        CreateJobRequest {
                            program_id,
                            backend: self.backend_name.clone(),
                            runtime: None,
                            tags: None,
                            log_level: None,
                            cost: self.timeout_secs,
                            session_id: self.session_id.clone(),
                            params,
                        },
                    )
                },
                Err(e) => Err(QrmiError::InvalidJson { detail: json_error_text(&e) }),
            },
            Payload::PasqalCloud { .. } => Err(unsupported_payload(": ", &payload)),
        }
    }

    /// What stopping a job in state `status` sends: a cancellation when the
    /// job is still running, then the deletion of the job.
    pub fn stop_plan(status: JobResponseStatus) -> (r: StopPlan)
        ensures
            r.cancel == (status == JobResponseStatus::Running),
            r.delete,
    {
        match status {
            JobResponseStatus::Running => StopPlan { cancel: true, delete: true },
            _ => StopPlan { cancel: false, delete: true },
        }
    }

    /// Maps the state of a job to the state of the task.
    pub fn task_status(status: JobResponseStatus) -> (r: TaskStatus)
        ensures
            r == spec_task_status(status),
    {
        match status {
            JobResponseStatus::Running => TaskStatus::Running,
            JobResponseStatus::Queued => TaskStatus::Queued,
            JobResponseStatus::Completed => TaskStatus::Completed,
            JobResponseStatus::Cancelled | JobResponseStatus::CancelledRanTooLong => TaskStatus::Cancelled,
            JobResponseStatus::Failed => TaskStatus::Failed,
        }
    }

    /// Checks that a job in state `status` has results: it is completed.
    pub fn result_ready(status: JobResponseStatus) -> (r: Result<(), QrmiError>)
        ensures
            status == JobResponseStatus::Completed ==> r is Ok,
            status != JobResponseStatus::Completed ==> (r matches Err(QrmiError::TaskNotCompleted { status: s })
                && s@ == status.spec_debug_name()),
    {
        match status {
            JobResponseStatus::Completed => Ok(()),
            _ => Err(QrmiError::TaskNotCompleted { status: String::from_str(status.debug_name()) }),
        }
    }

    /// The resource's metadata: its backend and, when there is one, its session.
    pub fn metadata(&self) -> (r: ResourceMetadata)
        ensures
            r@ == (match self.session_id {
                Some(s) => map!["backend_name"@ => self.backend_name@, "session_id"@ => s@],
                None => map!["backend_name"@ => self.backend_name@],
            }),
    {
        let mut m = ResourceMetadata::new();
        m.insert(String::from_str("backend_name"), self.backend_name.clone());
        match &self.session_id {
            Some(s) => {
                m.insert(String::from_str("session_id"), s.clone());
            },
            None => {},
        }
        proof {
            match &self.session_id {
                Some(s) => {
                    assert(m@ =~= map!["backend_name"@ => self.backend_name@, "session_id"@ => s@]);
                },
                None => {
                    assert(m@ =~= map!["backend_name"@ => self.backend_name@]);
                },
            }
        }
        m
    }
}

/// Stopping a task cancels its job exactly when the task reads as running.
pub proof fn lemma_stop_cancels_running(status: JobResponseStatus)
    ensures
        (status == JobResponseStatus::Running) <==> spec_task_status(status) == TaskStatus::Running,
{
}

/// Results are fetched exactly for the tasks whose status reads as completed.
pub proof fn lemma_results_only_when_completed(status: JobResponseStatus)
    ensures
        (status == JobResponseStatus::Completed) <==> spec_task_status(status) == TaskStatus::Completed,
{
}

/// A session is created in the configured mode: the mode text that the
/// creation request carries is the configured mode, read case-insensitively.
pub proof fn lemma_session_created_in_configured_mode(s: IBMQiskitRuntimeService, r: AcquireAction)
    requires
        s.spec_creates_session(r),
    ensures
        r matches AcquireAction::CreateSession { request } ==> request.mode.spec_wire_name() == lowercase(
            s.session_mode@,
        ),
        r matches AcquireAction::Failed { .. } ==> lowercase(s.session_mode@) != "batch"@ && lowercase(
            s.session_mode@,
        ) != "dedicated"@,
{
}

/// A job reads as the task status whose name its API text carries; a job
/// cancelled for running too long reads as cancelled.
pub proof fn lemma_job_status_text(status: JobResponseStatus)
    ensures
        (spec_task_status(status) == TaskStatus::Queued) <==> status.spec_wire_name() == "Queued"@,
        (spec_task_status(status) == TaskStatus::Running) <==> status.spec_wire_name() == "Running"@,
        (spec_task_status(status) == TaskStatus::Completed) <==> status.spec_wire_name() == "Completed"@,
        (spec_task_status(status) == TaskStatus::Failed) <==> status.spec_wire_name() == "Failed"@,
        (spec_task_status(status) == TaskStatus::Cancelled) <==> (status.spec_wire_name() == "Cancelled"@
            || status.spec_wire_name() == "Cancelled - Ran too long"@),
{
    reveal_strlit("Queued");
    reveal_strlit("Running");
    reveal_strlit("Completed");
    reveal_strlit("Failed");
    reveal_strlit("Cancelled");
    reveal_strlit("Cancelled - Ran too long");
    let w = status.spec_wire_name();
    assert(w[0] == "Queued"@[0] ==> w == "Queued"@);
    assert(w[0] == "Running"@[0] ==> w == "Running"@);
    assert(w[0] == "Failed"@[0] ==> w == "Failed"@);
    assert(w.len() == 9 && w[1] == "Completed"@[1] ==> w == "Completed"@);
    assert("Completed"@[1] != "Cancelled"@[1]);
    assert("Completed"@.len() != "Cancelled - Ran too long"@.len());
    assert(w == "Completed"@ ==> w[1] == "Completed"@[1]);
    assert(w == "Cancelled"@ ==> w[1] == "Cancelled"@[1]);
}

/// The results of a job are fetched exactly when the service reports it
/// `Completed`.
pub proof fn lemma_results_when_reported_completed(status: JobResponseStatus)
    ensures
        (status == JobResponseStatus::Completed) <==> status.spec_wire_name() == "Completed"@,
{
    lemma_job_status_text(status);
}

/// More remaining time to live never turns a kept session into a dropped one.
pub proof fn lemma_keep_session_monotone(active: i64, longer: i64, max_ttl: Option<i64>)
    requires
        active <= longer,
        spec_keep_session(Some(active), max_ttl),
    ensures
        spec_keep_session(Some(longer), max_ttl),
{
}

} // verus!

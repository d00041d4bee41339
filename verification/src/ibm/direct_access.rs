//! QRMI for IBM Qiskit Runtime Direct Access: configuration, task start,
//! the reading of job states and where results are found.
use vstd::prelude::*;
use vstd::utf8::{decode_utf8, valid_utf8};

use crate::cext::ResourceMetadata;
use crate::direct_access_client::client::{results_key, spec_results_key};
use crate::direct_access_client::models::{BackendStatus, JobStatus, JobSummary, LogLevel, ProgramId};
use crate::error::QrmiError;
use crate::json::{json_error_text, json_shape, json_value, parse_json, JsonShape};
use crate::models::{spec_unsupported_payload, unsupported_payload, Payload, TaskResult, TaskStatus};
use crate::text::{i64_text, is_v4_uuid_text, new_v4, parse_u64, parsed_u64, signed_decimal, utf8_text};

verus! {

/// The environment variables that configure a Direct Access resource.
#[derive(Debug, Clone)]
pub struct DirectAccessEnvironment {
    /// `QRMI_IBM_DA_ENDPOINT`: Direct Access API endpoint URL.
    pub endpoint: Option<String>,
    /// `QRMI_IBM_DA_AWS_ACCESS_KEY_ID`.
    pub aws_access_key_id: Option<String>,
    /// `QRMI_IBM_DA_AWS_SECRET_ACCESS_KEY`.
    pub aws_secret_access_key: Option<String>,
    /// `QRMI_IBM_DA_S3_ENDPOINT`.
    pub s3_endpoint: Option<String>,
    /// `QRMI_IBM_DA_S3_BUCKET`.
    pub s3_bucket: Option<String>,
    /// `QRMI_IBM_DA_S3_REGION`.
    pub s3_region: Option<String>,
    /// `QRMI_IBM_DA_IAM_APIKEY`.
    pub iam_apikey: Option<String>,
    /// `QRMI_IBM_DA_SERVICE_CRN`.
    pub service_crn: Option<String>,
    /// `QRMI_IBM_DA_IAM_ENDPOINT`.
    pub iam_endpoint: Option<String>,
}

/// Access to an S3 bucket.
#[derive(Debug, Clone)]
pub struct S3Settings {
    pub aws_access_key_id: String,
    pub aws_secret_access_key: String,
    pub endpoint: String,
    pub bucket: String,
    pub region: String,
}

/// IBM Cloud IAM authentication.
#[derive(Debug, Clone)]
pub struct IamAuth {
    pub apikey: String,
    pub service_crn: String,
    pub iam_endpoint_url: String,
}

/// Exponential back-off between retries of a request.
#[derive(Debug, Clone, Copy, PartialEq, Eq)]
pub struct RetryPolicy {
    /// Shortest wait, in seconds.
    pub min_secs: u64,
    /// Longest wait, in seconds.
    pub max_secs: u64,
    /// Growth factor of the wait.
    pub base: u32,
    /// Number of retries.
    pub max_retries: u32,
}

/// How the Direct Access client is built.
#[derive(Debug, Clone)]
pub struct DirectAccessSettings {
    /// API endpoint URL.
    pub endpoint: String,
    /// Request timeout, in seconds.
    pub timeout_secs: u64,
    /// Retry policy of requests.
    pub retry: RetryPolicy,
    /// The S3 bucket, when all five of its variables are set.
    pub s3: Option<S3Settings>,
    /// IAM authentication, when all three of its variables are set.
    pub auth: Option<IamAuth>,
}

/// The endpoint used when none is configured.
pub open spec fn default_endpoint() -> Seq<char> {
    "http://localhost:8080"@
}

/// Whether all five S3 variables are set.
pub open spec fn spec_has_s3(env: DirectAccessEnvironment) -> bool {
    env.aws_access_key_id is Some && env.aws_secret_access_key is Some && env.s3_endpoint is Some
        && env.s3_bucket is Some && env.s3_region is Some
}

/// Whether all three IAM variables are set.
pub open spec fn spec_has_auth(env: DirectAccessEnvironment) -> bool {
    env.iam_apikey is Some && env.service_crn is Some && env.iam_endpoint is Some
}

/// Derives the client settings from the environment: the configured endpoint
/// or `http://localhost:8080`, a 60 second timeout, up to 5 retries waiting
/// from 1 to 5 seconds with base 2, and the S3 bucket and IAM authentication
/// when fully configured.
pub fn client_settings(env: DirectAccessEnvironment) -> (r: DirectAccessSettings)
    ensures
        r.endpoint@ == (match env.endpoint { Some(e) => e@, None => default_endpoint() }),
        r.timeout_secs == 60,
        r.retry == (RetryPolicy { min_secs: 1, max_secs: 5, base: 2, max_retries: 5 }),
        r.s3 is Some <==> spec_has_s3(env),
        r.s3 matches Some(s) ==> Some(s.aws_access_key_id) == env.aws_access_key_id && Some(
            s.aws_secret_access_key,
        ) == env.aws_secret_access_key && Some(s.endpoint) == env.s3_endpoint && Some(s.bucket)
            == env.s3_bucket && Some(s.region) == env.s3_region,
        r.auth is Some <==> spec_has_auth(env),
        r.auth matches Some(a) ==> Some(a.apikey) == env.iam_apikey && Some(a.service_crn)
            == env.service_crn && Some(a.iam_endpoint_url) == env.iam_endpoint,
{
    let endpoint = match env.endpoint {
        Some(e) => e,
        None => String::from_str("http://localhost:8080"),
    };
    let s3 = match (env.aws_access_key_id, env.aws_secret_access_key, env.s3_endpoint, env.s3_bucket, env.s3_region) {
        (Some(aws_access_key_id), Some(aws_secret_access_key), Some(endpoint), Some(bucket), Some(region)) => Some(
            S3Settings { aws_access_key_id, aws_secret_access_key, endpoint, bucket, region },
        ),
        _ => None,
    };
    let auth = match (env.iam_apikey, env.service_crn, env.iam_endpoint) {
        (Some(apikey), Some(service_crn), Some(iam_endpoint_url)) => Some(
            IamAuth { apikey, service_crn, iam_endpoint_url },
        ),
        _ => None,
    };
    DirectAccessSettings {
        endpoint,
        timeout_secs: 60,
        retry: RetryPolicy { min_secs: 1, max_secs: 5, base: 2, max_retries: 5 },
        s3,
        auth,
    }
}

/// A backend is accessible when it is online.
pub fn backend_accessible(status: BackendStatus) -> (r: bool)
    ensures
        r == (status == BackendStatus::Online),
{
    match status {
        BackendStatus::Online => true,
        _ => false,
    }
}

/// Direct Access has no sessions: an acquisition token is a fresh random UUID.
pub fn acquire() -> (r: String)
    ensures
        is_v4_uuid_text(r@),
{
    new_v4()
}

/// What starts a primitive job.
#[derive(Debug)]
pub struct TaskStartPlan {
    /// The backend that runs the job.
    pub backend: String,
    /// The primitive.
    pub program_id: ProgramId,
    /// Job timeout, in seconds.
    pub timeout_secs: u64,
    /// Logging level of the job.
    pub log_level: LogLevel,
    /// The primitive input.
    pub job: serde_json::Value,
}

/// Decides how a task starts: the backend comes from `QRMI_RESOURCE_ID`, the
/// timeout from `QRMI_IBM_DA_TIMEOUT_SECONDS`, and the payload must be a
/// Qiskit primitive with JSON input naming a known primitive; the checks are
/// made in this order and the first that fails is reported.
pub fn task_start_plan(payload: Payload, resource_id: Option<String>, timeout: Option<String>) -> (r: Result<
    TaskStartPlan,
    QrmiError,
>)
    ensures
        match (resource_id, timeout) {
            (None, _) => r matches Err(QrmiError::EnvVarNotSet { name }) && name@ == "QRMI_RESOURCE_ID"@,
            (Some(_), None) => r matches Err(QrmiError::EnvVarNotSet { name }) && name@
                == "QRMI_IBM_DA_TIMEOUT_SECONDS"@,
            (Some(backend), Some(t)) => match parsed_u64(t@) {
                None => r matches Err(QrmiError::InvalidTimeout { .. }),
                Some(secs) => match payload {
                    Payload::PasqalCloud { .. } => r matches Err(QrmiError::UnsupportedPayload { message })
                        && message@ == spec_unsupported_payload(". "@, payload),
                    Payload::QiskitPrimitive { input, program_id } => if json_shape(input@)
                        == JsonShape::Invalid {
                        r matches Err(QrmiError::InvalidJson { .. })
                    } else if forall|p: ProgramId| p.spec_wire_name() != program_id@ {
                        r == Err::<TaskStartPlan, QrmiError>(QrmiError::UnknownProgramId { program_id })
                    } else {
                        r matches Ok(plan) && plan.backend == backend && plan.program_id.spec_wire_name()
                            == program_id@ && plan.timeout_secs == secs && plan.log_level
                            == LogLevel::Debug && plan.job == json_value(input@)
                    },
                },
            },
        },
{
    let backend = match resource_id {
        Some(b) => b,
        None => {
            return Err(QrmiError::EnvVarNotSet { name: String::from_str("QRMI_RESOURCE_ID") });
        },
    };
    let timeout_text = match timeout {
        Some(t) => t,
        None => {
            return Err(QrmiError::EnvVarNotSet { name: String::from_str("QRMI_IBM_DA_TIMEOUT_SECONDS") });
        },
    };
    let timeout_secs = match parse_u64(timeout_text.as_str()) {
        Ok(v) => v,
        Err(detail) => {
            return Err(QrmiError::InvalidTimeout { detail });
        },
    };
    match payload {
        Payload::QiskitPrimitive { input, program_id } => {
            let job = match parse_json(input.as_str()) {
                Ok((v, _)) => v,
                Err(e) => {
                    return Err(QrmiError::InvalidJson { detail: json_error_text(&e) });
                },
            };
            match ProgramId::from_wire_name(program_id.as_str()) {
                Some(p) => Ok(
                    TaskStartPlan { backend, program_id: p, timeout_secs, log_level: LogLevel::Debug, job },
                ),
                None => Err(QrmiError::UnknownProgramId { program_id }),
            }
        },
        Payload::PasqalCloud { .. } => Err(unsupported_payload(". ", &payload)),
    }
}

/// Maps the state of a job to the state of a task.
pub open spec fn spec_task_status(status: JobStatus) -> TaskStatus {
    match status {
        JobStatus::Running => TaskStatus::Running,
        JobStatus::Completed => TaskStatus::Completed,
        JobStatus::Cancelled => TaskStatus::Cancelled,
        JobStatus::Failed => TaskStatus::Failed,
    }
}

/// Maps the state of a job to the state of the task.
pub fn task_status(status: JobStatus) -> (r: TaskStatus)
    ensures
        r == spec_task_status(status),
{
    match status {
        JobStatus::Running => TaskStatus::Running,
        JobStatus::Completed => TaskStatus::Completed,
        JobStatus::Cancelled => TaskStatus::Cancelled,
        JobStatus::Failed => TaskStatus::Failed,
    }
}

/// Whether stopping a job in state `status` cancels it before deleting it:
/// it is still running.
pub fn cancel_needed(status: JobStatus) -> (r: bool)
    ensures
        r == (status == JobStatus::Running),
{
    match status {
        JobStatus::Running => true,
        _ => false,
    }
}

/// Reads the S3 settings that results are fetched with; the variables are
/// checked in the order bucket, endpoint, access key, secret key, region, and
/// the first missing one is reported.
pub fn result_store(
    s3_bucket: Option<String>,
    s3_endpoint: Option<String>,
    aws_access_key_id: Option<String>,
    aws_secret_access_key: Option<String>,
    s3_region: Option<String>,
) -> (r: Result<S3Settings, QrmiError>)
    ensures
        s3_bucket is None ==> (r matches Err(QrmiError::EnvVarNotSet { name }) && name@
            == "QRMI_IBM_DA_S3_BUCKET"@),
        s3_bucket is Some && s3_endpoint is None ==> (r matches Err(QrmiError::EnvVarNotSet { name })
            && name@ == "QRMI_IBM_DA_S3_ENDPOINT"@),
        s3_bucket is Some && s3_endpoint is Some && aws_access_key_id is None ==> (r matches Err(
            QrmiError::EnvVarNotSet { name },
        ) && name@ == "QRMI_IBM_DA_AWS_ACCESS_KEY_ID"@),
        s3_bucket is Some && s3_endpoint is Some && aws_access_key_id is Some && aws_secret_access_key is None
            ==> (r matches Err(QrmiError::EnvVarNotSet { name }) && name@
            == "QRMI_IBM_DA_AWS_SECRET_ACCESS_KEY"@),
        s3_bucket is Some && s3_endpoint is Some && aws_access_key_id is Some && aws_secret_access_key is Some
            && s3_region is None ==> (r matches Err(QrmiError::EnvVarNotSet { name }) && name@
            == "QRMI_IBM_DA_S3_REGION"@),
        r matches Ok(s) ==> Some(s.bucket) == s3_bucket && Some(s.endpoint) == s3_endpoint && Some(
            s.aws_access_key_id,
        ) == aws_access_key_id && Some(s.aws_secret_access_key) == aws_secret_access_key && Some(s.region)
            == s3_region,
        (s3_bucket is Some && s3_endpoint is Some && aws_access_key_id is Some && aws_secret_access_key is Some
            && s3_region is Some) ==> r is Ok,
{
    let bucket = match s3_bucket {
        Some(v) => v,
        None => {
            return Err(QrmiError::EnvVarNotSet { name: String::from_str("QRMI_IBM_DA_S3_BUCKET") });
        },
    };
    let endpoint = match s3_endpoint {
        Some(v) => v,
        None => {
            return Err(QrmiError::EnvVarNotSet { name: String::from_str("QRMI_IBM_DA_S3_ENDPOINT") });
        },
    };
    let aws_access_key_id = match aws_access_key_id {
        Some(v) => v,
        None => {
            return Err(QrmiError::EnvVarNotSet { name: String::from_str("QRMI_IBM_DA_AWS_ACCESS_KEY_ID") });
        },
    };
    let aws_secret_access_key = match aws_secret_access_key {
        Some(v) => v,
        None => {
            return Err(
                QrmiError::EnvVarNotSet { name: String::from_str("QRMI_IBM_DA_AWS_SECRET_ACCESS_KEY") },
            );
        },
    };
    let region = match s3_region {
        Some(v) => v,
        None => {
            return Err(QrmiError::EnvVarNotSet { name: String::from_str("QRMI_IBM_DA_S3_REGION") });
        },
    };
    Ok(S3Settings { aws_access_key_id, aws_secret_access_key, endpoint, bucket, region })
}

/// The reason code of a failed job as text; empty when there is none.
pub open spec fn spec_reason_code_text(code: Option<i64>) -> Seq<char> {
    match code {
        Some(c) => signed_decimal(c as int),
        None => Seq::empty(),
    }
}

/// An optional text, empty when missing.
pub open spec fn text_or_empty(s: Option<String>) -> Seq<char> {
    match s {
        Some(t) => t@,
        None => Seq::empty(),
    }
}

/// Decides where the result of task `task_id` is found: a completed job's
/// results are the object `results_<task_id>.json`; a failed job reports its
/// reason, a cancelled or running job says so.
pub fn result_key(task_id: &str, job: JobSummary) -> (r: Result<String, QrmiError>)
    ensures
        match job.status {
            JobStatus::Completed => (r matches Ok(k) && k@ == spec_results_key(task_id@)),
            JobStatus::Failed => (r matches Err(QrmiError::TaskFailed { task_id: t, code, message, solution })
                && t@ == task_id@ && code@ == spec_reason_code_text(job.reason_code) && message@
                == text_or_empty(job.reason_message) && solution@ == text_or_empty(job.reason_solution)),
            JobStatus::Cancelled => (r matches Err(QrmiError::TaskCancelled { task_id: t }) && t@
                == task_id@),
            JobStatus::Running => (r matches Err(QrmiError::TaskRunning { task_id: t }) && t@ == task_id@),
        },
{
    match job.status {
        JobStatus::Failed => {
            let code = match job.reason_code {
                Some(c) => i64_text(c),
                None => String::new(),
            };
            let message = match job.reason_message {
                Some(m) => m,
                None => String::new(),
            };
            let solution = match job.reason_solution {
                Some(s) => s,
                None => String::new(),
            };
            Err(QrmiError::TaskFailed { task_id: String::from_str(task_id), code, message, solution })
        },
        JobStatus::Cancelled => Err(QrmiError::TaskCancelled { task_id: String::from_str(task_id) }),
        JobStatus::Running => Err(QrmiError::TaskRunning { task_id: String::from_str(task_id) }),
        JobStatus::Completed => Ok(results_key(task_id)),
    }
}

/// Reads a stored result: the bytes must be UTF-8 text; otherwise the
/// decoder's message is reported.
pub fn decode_result(bytes: Vec<u8>) -> (r: Result<TaskResult, QrmiError>)
    ensures
        r is Ok <==> valid_utf8(bytes@),
        r matches Ok(t) ==> t.value@ == decode_utf8(bytes@),
        r is Err ==> r matches Err(QrmiError::InvalidUtf8 { .. }),
{
    match utf8_text(bytes) {
        Ok(value) => Ok(TaskResult { value }),
        Err(detail) => Err(QrmiError::InvalidUtf8 { detail }),
    }
}

/// The resource's metadata: its backend, when `QRMI_RESOURCE_ID` is set.
pub fn metadata(resource_id: Option<String>) -> (r: ResourceMetadata)
    ensures
        r@ == (match resource_id {
            Some(b) => map!["backend_name"@ => b@],
            None => Map::<Seq<char>, Seq<char>>::empty(),
        }),
{
    let mut m = ResourceMetadata::new();
    match &resource_id {
        Some(b) => {
            m.insert(String::from_str("backend_name"), b.clone());
        },
        None => {},
    }
    proof {
        match &resource_id {
            Some(b) => {
                assert(m@ =~= map!["backend_name"@ => b@]);
            },
            None => {},
        }
    }
    m
}

/// A backend is accessible exactly when the service reports it `online`.
pub proof fn lemma_accessible_when_reported_online(status: BackendStatus)
    ensures
        (status == BackendStatus::Online) <==> status.spec_wire_name() == "online"@,
{
    reveal_strlit("online");
    reveal_strlit("offline");
    reveal_strlit("paused");
    let w = status.spec_wire_name();
    assert("online"@[1] != "offline"@[1]);
    assert(w == "online"@ ==> w[1] == "online"@[1]);
    assert(w == "offline"@ ==> w[1] == "offline"@[1]);
}

/// A job reads as the task status whose name its API text carries.
pub proof fn lemma_job_status_text(status: JobStatus)
    ensures
        (spec_task_status(status) == TaskStatus::Running) <==> status.spec_wire_name() == "Running"@,
        (spec_task_status(status) == TaskStatus::Completed) <==> status.spec_wire_name() == "Completed"@,
        (spec_task_status(status) == TaskStatus::Cancelled) <==> status.spec_wire_name() == "Cancelled"@,
        (spec_task_status(status) == TaskStatus::Failed) <==> status.spec_wire_name() == "Failed"@,
        spec_task_status(status) != TaskStatus::Queued,
{
    reveal_strlit("Running");
    reveal_strlit("Completed");
    reveal_strlit("Cancelled");
    reveal_strlit("Failed");
    let w = status.spec_wire_name();
    assert(w[0] == "Running"@[0] ==> w == "Running"@);
    assert(w[0] == "Failed"@[0] ==> w == "Failed"@);
    assert("Completed"@[1] != "Cancelled"@[1]);
    assert(w == "Completed"@ ==> w[1] == "Completed"@[1]);
    assert(w == "Cancelled"@ ==> w[1] == "Cancelled"@[1]);
}

/// The result of a task is looked up exactly when the service reports its
/// job `Completed`.
pub proof fn lemma_result_when_reported_completed(status: JobStatus)
    ensures
        (status == JobStatus::Completed) <==> status.spec_wire_name() == "Completed"@,
{
    lemma_job_status_text(status);
}

/// Stopping a task cancels its job exactly when the task reads as running.
pub proof fn lemma_stop_cancels_running(status: JobStatus)
    ensures
        (status == JobStatus::Running) <==> spec_task_status(status) == TaskStatus::Running,
{
}

/// A result is looked up exactly for the tasks whose status reads as completed.
pub proof fn lemma_results_only_when_completed(status: JobStatus)
    ensures
        (status == JobStatus::Completed) <==> spec_task_status(status) == TaskStatus::Completed,
{
}

/// The logs of a job are available exactly when its task is in a final state.
pub proof fn lemma_logs_when_final(status: JobStatus)
    ensures
        status.spec_is_final() <==> spec_task_status(status).spec_is_final(),
{
}

} // verus!

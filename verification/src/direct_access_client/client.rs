//! Direct Access API client: request addresses, session payloads, the
//! storage layout of primitive jobs and when results and logs are available.
use vstd::prelude::*;

use crate::direct_access_client::models::{JobStatus, LogLevel, ProgramId};
use crate::error::QrmiError;
use crate::text::{concat2, concat3, concat4, is_v4_uuid_text, new_v4, text_eq};

verus! {

/// The address that a Direct Access client sends its requests to.
#[derive(Debug, Clone)]
pub struct Client {
    /// The base URL this client sends requests to.
    pub base_url: String,
}

/// A member value of a session creation payload.
#[derive(Debug, Clone, PartialEq, Eq)]
pub enum SessionPayloadValue {
    /// A JSON string.
    Text(String),
    /// A JSON number.
    Number(u64),
}

/// The value of a member, with its texts taken as sequences.
pub enum SessionMemberView {
    Text(Seq<char>),
    Number(u64),
}

/// The view of a payload member.
pub open spec fn member_view(m: (String, SessionPayloadValue)) -> (Seq<char>, SessionMemberView) {
    (m.0@, match m.1 {
        SessionPayloadValue::Text(t) => SessionMemberView::Text(t@),
        SessionPayloadValue::Number(n) => SessionMemberView::Number(n),
    })
}

/// An optional text member.
pub open spec fn text_member(key: Seq<char>, value: Option<Seq<char>>) -> Seq<(Seq<char>, SessionMemberView)> {
    match value {
        Some(v) => seq![(key, SessionMemberView::Text(v))],
        None => Seq::empty(),
    }
}

/// The members of a session creation payload, in order: `mode`, `backend`,
/// `instance` when given, and the maximum time under `max_session_ttl` on
/// the `ibm_quantum` channel and under `max_ttl` otherwise.
pub open spec fn spec_session_payload(
    mode: Option<Seq<char>>,
    backend: Option<Seq<char>>,
    instance: Option<Seq<char>>,
    max_time: Option<u64>,
    channel: Option<Seq<char>>,
) -> Seq<(Seq<char>, SessionMemberView)> {
    text_member("mode"@, mode) + text_member("backend"@, backend) + text_member("instance"@, instance)
        + match max_time {
        Some(max) => if channel == Some("ibm_quantum"@) {
            seq![("max_session_ttl"@, SessionMemberView::Number(max))]
        } else {
            seq![("max_ttl"@, SessionMemberView::Number(max))]
        },
        None => Seq::empty(),
    }
}

/// The view of an optional text.
pub open spec fn opt_view(s: Option<&str>) -> Option<Seq<char>> {
    match s {
        Some(t) => Some(t@),
        None => None,
    }
}

/// The session call whose answer is checked.
#[derive(Debug, Clone, Copy, PartialEq, Eq, Structural)]
pub enum SessionCall {
    /// `DELETE /v1/sessions/{id}/close`.
    Cancel,
    /// `PATCH /v1/sessions/{id}`.
    Close,
    /// `GET /v1/sessions/{id}`.
    Details,
}

impl Client {
    /// Returns the address of the properties of backend `backend_name`.
    pub fn backend_properties_url(&self, backend_name: &str) -> (r: String)
        ensures
            r@ == self.base_url@ + "/v1/backends/"@ + backend_name@ + "/properties"@,
    {
        concat4(self.base_url.as_str(), "/v1/backends/", backend_name, "/properties")
    }

    /// Returns the address of session creation.
    pub fn sessions_url(&self) -> (r: String)
        ensures
            r@ == self.base_url@ + "/v1/sessions"@,
    {
        concat2(self.base_url.as_str(), "/v1/sessions")
    }

    /// Returns the address that cancels session `session_id`.
    pub fn session_close_url(&self, session_id: &str) -> (r: String)
        ensures
            r@ == self.base_url@ + "/v1/sessions/"@ + session_id@ + "/close"@,
    {
        concat4(self.base_url.as_str(), "/v1/sessions/", session_id, "/close")
    }

    /// Returns the address of session `session_id`.
    pub fn session_url(&self, session_id: &str) -> (r: String)
        ensures
            r@ == self.base_url@ + "/v1/sessions/"@ + session_id@,
    {
        concat3(self.base_url.as_str(), "/v1/sessions/", session_id)
    }

    /// Returns the request that closes session `session_id` to new jobs: its
    /// address, sent with `PATCH`, and the members of its JSON body, the one
    /// member `accepting_jobs` set to `false`.
    pub fn close_session_request(&self, session_id: &str) -> (r: (String, Vec<(String, bool)>))
        ensures
            r.0@ == self.base_url@ + "/v1/sessions/"@ + session_id@,
            r.1@.len() == 1,
            r.1@[0].0@ == "accepting_jobs"@,
            r.1@[0].1 == false,
    {
        let mut body: Vec<(String, bool)> = Vec::new();
        body.push((String::from_str("accepting_jobs"), false));
        (self.session_url(session_id), body)
    }

    /// Returns the members of a session creation payload.
    pub fn create_session_payload(
        mode: Option<&str>,
        backend: Option<&str>,
        instance: Option<&str>,
        max_time: Option<u64>,
        channel: Option<&str>,
    ) -> (r: Vec<(String, SessionPayloadValue)>)
        ensures
            r@.map_values(|m: (String, SessionPayloadValue)| member_view(m)) == spec_session_payload(
                opt_view(mode),
                opt_view(backend),
                opt_view(instance),
                max_time,
                opt_view(channel),
            ),
    {
        let mut r: Vec<(String, SessionPayloadValue)> = Vec::new();
        if let Some(m) = mode {
            r.push((String::from_str("mode"), SessionPayloadValue::Text(String::from_str(m))));
        }
        assert(r@.map_values(|m: (String, SessionPayloadValue)| member_view(m)) =~= text_member(
            "mode"@,
            opt_view(mode),
        ));
        if let Some(b) = backend {
            r.push((String::from_str("backend"), SessionPayloadValue::Text(String::from_str(b))));
        }
        assert(r@.map_values(|m: (String, SessionPayloadValue)| member_view(m)) =~= text_member(
            "mode"@,
            opt_view(mode),
        ) + text_member("backend"@, opt_view(backend)));
        if let Some(i) = instance {
            r.push((String::from_str("instance"), SessionPayloadValue::Text(String::from_str(i))));
        }
        let ghost prefix = text_member("mode"@, opt_view(mode)) + text_member("backend"@, opt_view(backend))
            + text_member("instance"@, opt_view(instance));
        assert(r@.map_values(|m: (String, SessionPayloadValue)| member_view(m)) =~= prefix);
        if let Some(max) = max_time {
            let on_quantum = match channel {
                Some(ch) => text_eq(ch, "ibm_quantum"),
                None => false,
            };
            if on_quantum {
                r.push((String::from_str("max_session_ttl"), SessionPayloadValue::Number(max)));
            } else {
                r.push((String::from_str("max_ttl"), SessionPayloadValue::Number(max)));
            }
        }
        assert(r@.map_values(|m: (String, SessionPayloadValue)| member_view(m)) =~= spec_session_payload(
            opt_view(mode),
            opt_view(backend),
            opt_view(instance),
            max_time,
            opt_view(channel),
        ));
        r
    }

    /// Reads the status of a session creation: `204 No Content` means that
    /// no session was created.
    pub fn check_session_created(status_code: u16) -> (r: Result<(), QrmiError>)
        ensures
            status_code == 204 ==> r matches Err(QrmiError::SessionNotCreated),
            status_code != 204 ==> r is Ok,
    {
        if status_code == 204 {
            Err(QrmiError::SessionNotCreated)
        } else {
            Ok(())
        }
    }

    /// Reads the answer to a session call: any status but a success fails,
    /// naming the status.
    pub fn check_session_call(call: SessionCall, success: bool, status: String) -> (r: Result<(), QrmiError>)
        ensures
            success ==> r is Ok,
            !success ==> match call {
                SessionCall::Cancel => r == Err::<(), QrmiError>(QrmiError::CancelSessionFailed { status }),
                SessionCall::Close => r == Err::<(), QrmiError>(QrmiError::CloseSessionFailed { status }),
                SessionCall::Details => r == Err::<(), QrmiError>(QrmiError::SessionDetailsFailed { status }),
            },
    {
        if success {
            Ok(())
        } else {
            match call {
                SessionCall::Cancel => Err(QrmiError::CancelSessionFailed { status }),
                SessionCall::Close => Err(QrmiError::CloseSessionFailed { status }),
                SessionCall::Details => Err(QrmiError::SessionDetailsFailed { status }),
            }
        }
    }
}

/// The object key of the input of job `id`.
pub open spec fn spec_input_key(id: Seq<char>) -> Seq<char> {
    "input_"@ + id + ".json"@
}

/// The object key of the results of job `id`.
pub open spec fn spec_results_key(id: Seq<char>) -> Seq<char> {
    "results_"@ + id + ".json"@
}

/// The object key of the logs of job `id`.
pub open spec fn spec_logs_key(id: Seq<char>) -> Seq<char> {
    "logs_"@ + id + ".json"@
}

/// Returns the object key of the input of job `id`.
pub fn input_key(id: &str) -> (r: String)
    ensures
        r@ == spec_input_key(id@),
{
    concat3("input_", id, ".json")
}

/// Returns the object key of the results of job `id`.
pub fn results_key(id: &str) -> (r: String)
    ensures
        r@ == spec_results_key(id@),
{
    concat3("results_", id, ".json")
}

/// Returns the object key of the logs of job `id`.
pub fn logs_key(id: &str) -> (r: String)
    ensures
        r@ == spec_logs_key(id@),
{
    concat3("logs_", id, ".json")
}

/// The job identifier for a new primitive job: the one given, or a fresh
/// random UUID; a client without an S3 bucket cannot run primitives.
pub fn primitive_job_id(s3_configured: bool, job_id: Option<String>) -> (r: Result<String, QrmiError>)
    ensures
        !s3_configured ==> r matches Err(QrmiError::S3NotConfigured),
        s3_configured ==> match job_id {
            Some(id) => r == Ok::<String, QrmiError>(id),
            None => r matches Ok(id) && is_v4_uuid_text(id@),
        },
{
    if !s3_configured {
        return Err(QrmiError::S3NotConfigured);
    }
    match job_id {
        Some(id) => Ok(id),
        None => Ok(new_v4()),
    }
}

/// Where a job reads or writes one of its objects.
#[derive(Debug, Clone)]
pub struct StorageOption {
    /// Presigned address of the object.
    pub presigned_url: String,
    /// Storage kind: always `s3_compatible`.
    pub storage_type: String,
}

/// The three objects of a primitive job.
#[derive(Debug, Clone)]
pub struct Storage {
    pub input: StorageOption,
    pub results: StorageOption,
    pub logs: StorageOption,
}

/// The parameters of a job submission.
#[derive(Debug, Clone)]
pub struct JobParam {
    pub id: String,
    pub backend: String,
    pub program_id: String,
    pub log_level: String,
    pub timeout_secs: u64,
    pub storage: Storage,
}

/// Returns an S3-compatible storage option at a presigned address.
fn s3_option(presigned_url: String) -> (r: StorageOption)
    ensures
        r.presigned_url == presigned_url,
        r.storage_type@ == "s3_compatible"@,
{
    StorageOption { presigned_url, storage_type: String::from_str("s3_compatible") }
}

/// Builds the parameters that submit primitive job `id`, whose input is read
/// from, and whose results and logs are written to, the given presigned
/// addresses.
pub fn job_param(
    id: String,
    backend: &str,
    program_id: ProgramId,
    log_level: LogLevel,
    timeout_secs: u64,
    input_url: String,
    results_url: String,
    logs_url: String,
) -> (r: JobParam)
    ensures
        r.id == id,
        r.backend@ == backend@,
        r.program_id@ == program_id.spec_wire_name(),
        r.log_level@ == log_level.spec_wire_name(),
        r.timeout_secs == timeout_secs,
        r.storage.input.presigned_url == input_url,
        r.storage.results.presigned_url == results_url,
        r.storage.logs.presigned_url == logs_url,
        r.storage.input.storage_type@ == "s3_compatible"@,
        r.storage.results.storage_type@ == "s3_compatible"@,
        r.storage.logs.storage_type@ == "s3_compatible"@,
{
    JobParam {
        id,
        backend: String::from_str(backend),
        program_id: String::from_str(program_id.wire_name()),
        log_level: String::from_str(log_level.wire_name()),
        timeout_secs,
        storage: Storage {
            input: s3_option(input_url),
            results: s3_option(results_url),
            logs: s3_option(logs_url),
        },
    }
}

/// Checks that a job in state `status` has a result: cancelled and failed
/// jobs have none, running jobs none yet.
pub fn result_available(status: JobStatus) -> (r: Result<(), QrmiError>)
    ensures
        (status == JobStatus::Cancelled || status == JobStatus::Failed) ==> r matches Err(
            QrmiError::ResultNotSucceeded,
        ),
        status == JobStatus::Running ==> r matches Err(QrmiError::ResultNotCompleted),
        status == JobStatus::Completed ==> r is Ok,
{
    match status {
        JobStatus::Cancelled | JobStatus::Failed => Err(QrmiError::ResultNotSucceeded),
        JobStatus::Running => Err(QrmiError::ResultNotCompleted),
        JobStatus::Completed => Ok(()),
    }
}

/// Checks that the logs of a job in state `status` are complete: the job is
/// in its final state.
pub fn logs_available(status: JobStatus) -> (r: Result<(), QrmiError>)
    ensures
        status.spec_is_final() ==> r is Ok,
        !status.spec_is_final() ==> r matches Err(QrmiError::LogsNotFinal),
{
    if status.is_final() {
        Ok(())
    } else {
        Err(QrmiError::LogsNotFinal)
    }
}

/// Whether a payload has a member named `key`.
pub open spec fn has_member(p: Seq<(Seq<char>, SessionMemberView)>, key: Seq<char>) -> bool {
    exists|i: int| 0 <= i < p.len() && (#[trigger] p[i]).0 == key
}

/// The maximum time of a session is sent as `max_session_ttl` only on the
/// `ibm_quantum` channel; on any other channel, and when no channel is given,
/// it is the last member, `max_ttl`. Without a maximum time neither is sent.
pub proof fn lemma_session_ttl_member(
    mode: Option<Seq<char>>,
    backend: Option<Seq<char>>,
    instance: Option<Seq<char>>,
    max_time: Option<u64>,
    channel: Option<Seq<char>>,
)
    ensures
        ({
            let p = spec_session_payload(mode, backend, instance, max_time, channel);
            &&& max_time matches Some(m) ==> (channel != Some("ibm_quantum"@) ==> (p.len() > 0 && p.last() == (
                "max_ttl"@,
                SessionMemberView::Number(m),
            )))
            &&& has_member(p, "max_session_ttl"@) ==> channel == Some("ibm_quantum"@) && max_time is Some
            &&& max_time is None ==> !has_member(p, "max_ttl"@) && !has_member(p, "max_session_ttl"@)
        }),
{
    reveal_strlit("mode");
    reveal_strlit("backend");
    reveal_strlit("instance");
    reveal_strlit("max_ttl");
    reveal_strlit("max_session_ttl");
    let prefix = text_member("mode"@, mode) + text_member("backend"@, backend) + text_member("instance"@, instance);
    let p = spec_session_payload(mode, backend, instance, max_time, channel);
    assert forall|i: int| 0 <= i < prefix.len() implies (#[trigger] prefix[i]).0 != "max_ttl"@
        && prefix[i].0 != "max_session_ttl"@ by {
        let k = prefix[i].0;
        assert(k == "mode"@ || k == "backend"@ || k == "instance"@);
        assert(k == "mode"@ ==> k[1] != "max_ttl"@[1] && k[1] != "max_session_ttl"@[1]);
        assert(k == "backend"@ ==> k[0] != "max_ttl"@[0]);
        assert(k == "instance"@ ==> k[0] != "max_ttl"@[0]);
    }
    assert("max_ttl"@.len() != "max_session_ttl"@.len());
    if max_time is None {
        assert(p =~= prefix);
    } else if channel == Some("ibm_quantum"@) {
        assert(p =~= prefix.push(("max_session_ttl"@, SessionMemberView::Number(max_time->0))));
        if has_member(p, "max_session_ttl"@) {
        }
    } else {
        assert(p =~= prefix.push(("max_ttl"@, SessionMemberView::Number(max_time->0))));
        if has_member(p, "max_session_ttl"@) {
            let i = choose|i: int| 0 <= i < p.len() && (#[trigger] p[i]).0 == "max_session_ttl"@;
            if i < prefix.len() {
                assert(p[i] == prefix[i]);
            }
        }
    }
    if max_time is None {
        if has_member(p, "max_ttl"@) {
            let i = choose|i: int| 0 <= i < p.len() && (#[trigger] p[i]).0 == "max_ttl"@;
            assert(p[i] == prefix[i]);
        }
        if has_member(p, "max_session_ttl"@) {
            let i = choose|i: int| 0 <= i < p.len() && (#[trigger] p[i]).0 == "max_session_ttl"@;
            assert(p[i] == prefix[i]);
        }
    }
}

/// The three object keys of one job are pairwise distinct.
pub proof fn lemma_job_keys_distinct(id: Seq<char>)
    ensures
        spec_input_key(id) != spec_results_key(id),
        spec_input_key(id) != spec_logs_key(id),
        spec_results_key(id) != spec_logs_key(id),
{
    reveal_strlit("input_");
    reveal_strlit("results_");
    reveal_strlit("logs_");
    assert(spec_input_key(id)[0] == 'i');
    assert(spec_results_key(id)[0] == 'r');
    assert(spec_logs_key(id)[0] == 'l');
}

/// Different jobs store their results under different keys.
pub proof fn lemma_results_key_injective(a: Seq<char>, b: Seq<char>)
    requires
        spec_results_key(a) == spec_results_key(b),
    ensures
        a == b,
{
    reveal_strlit("results_");
    reveal_strlit(".json");
    let ka = spec_results_key(a);
    let kb = spec_results_key(b);
    assert(ka.len() == kb.len());
    assert("results_"@.len() == 8 && ".json"@.len() == 5);
    assert(ka.len() == a.len() + 13 && kb.len() == b.len() + 13);
    assert(a.len() == b.len());
    assert forall|i: int| 0 <= i < a.len() implies a[i] == b[i] by {
        assert(ka[8 + i] == a[i]);
        assert(kb[8 + i] == b[i]);
    }
    assert(a =~= b);
}

} // verus!

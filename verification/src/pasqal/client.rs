//! Pasqal Cloud API client: request addresses, request bodies and the
//! interpretation of responses.
use vstd::prelude::*;

use crate::error::QrmiError;
use crate::text::{concat2, concat3, concat4, text_eq};

verus! {

/// Status of a Pasqal Cloud batch.
#[derive(Debug, Clone, Copy, PartialEq, Eq, Structural)]
pub enum BatchStatus {
    Pending,
    Running,
    Done,
    Canceled,
    TimedOut,
    Error,
    Paused,
}

impl BatchStatus {
    /// The name of the status on the wire: the variant name in upper case.
    pub open spec fn spec_wire_name(self) -> Seq<char> {
        match self {
            BatchStatus::Pending => "PENDING"@,
            BatchStatus::Running => "RUNNING"@,
            BatchStatus::Done => "DONE"@,
            BatchStatus::Canceled => "CANCELED"@,
            BatchStatus::TimedOut => "TIMEDOUT"@,
            BatchStatus::Error => "ERROR"@,
            BatchStatus::Paused => "PAUSED"@,
        }
    }

    /// Returns the name of the status on the wire.
    pub fn wire_name(&self) -> (r: &'static str)
        ensures
            r@ == self.spec_wire_name(),
    {
        match self {
            BatchStatus::Pending => "PENDING",
            BatchStatus::Running => "RUNNING",
            BatchStatus::Done => "DONE",
            BatchStatus::Canceled => "CANCELED",
            BatchStatus::TimedOut => "TIMEDOUT",
            BatchStatus::Error => "ERROR",
            BatchStatus::Paused => "PAUSED",
        }
    }

    /// Reads a status from its name on the wire.
    pub fn from_wire_name(name: &str) -> (r: Option<BatchStatus>)
        ensures
            match r {
                Some(s) => s.spec_wire_name() == name@,
                None => forall|s: BatchStatus| s.spec_wire_name() != name@,
            },
    {
        if text_eq(name, "PENDING") {
            Some(BatchStatus::Pending)
        } else if text_eq(name, "RUNNING") {
            Some(BatchStatus::Running)
        } else if text_eq(name, "DONE") {
            Some(BatchStatus::Done)
        } else if text_eq(name, "CANCELED") {
            Some(BatchStatus::Canceled)
        } else if text_eq(name, "TIMEDOUT") {
            Some(BatchStatus::TimedOut)
        } else if text_eq(name, "ERROR") {
            Some(BatchStatus::Error)
        } else if text_eq(name, "PAUSED") {
            Some(BatchStatus::Paused)
        } else {
            None
        }
    }
}

/// Distinct statuses have distinct wire names, so reading the name of a
/// status gives the status back.
pub proof fn lemma_batch_status_names_distinct(a: BatchStatus, b: BatchStatus)
    requires
        a.spec_wire_name() == b.spec_wire_name(),
    ensures
        a == b,
{
    reveal_strlit("PENDING");
    reveal_strlit("RUNNING");
    reveal_strlit("DONE");
    reveal_strlit("CANCELED");
    reveal_strlit("TIMEDOUT");
    reveal_strlit("ERROR");
    reveal_strlit("PAUSED");
    assert("PENDING"@[0] == 'P' && "PENDING"@[1] == 'E');
    assert("RUNNING"@[0] == 'R');
    assert("DONE"@[0] == 'D');
    assert("CANCELED"@[0] == 'C');
    assert("TIMEDOUT"@[0] == 'T');
    assert("ERROR"@[0] == 'E');
    assert("PAUSED"@[0] == 'P' && "PAUSED"@[1] == 'A');
    assert(a.spec_wire_name()[0] == b.spec_wire_name()[0]);
    assert(a.spec_wire_name()[1] == b.spec_wire_name()[1]);
}

/// Pasqal devices that the library addresses.
#[derive(Debug, Clone, Copy, PartialEq, Eq, Structural)]
pub enum DeviceType {
    /// The Fresnel QPU.
    Fresnel,
    /// The free emulator.
    EmuFree,
}

impl DeviceType {
    /// The name of the device type in requests.
    pub open spec fn spec_name(self) -> Seq<char> {
        match self {
            DeviceType::Fresnel => "FRESNEL"@,
            DeviceType::EmuFree => "EMU_FREE"@,
        }
    }

    /// Returns the name of the device type in requests.
    pub fn name(&self) -> (r: &'static str)
        ensures
            r@ == self.spec_name(),
    {
        match self {
            DeviceType::Fresnel => "FRESNEL",
            DeviceType::EmuFree => "EMU_FREE",
        }
    }
}

/// The envelope of every Pasqal Cloud response.
#[derive(Debug, Clone)]
pub struct Response<T> {
    pub data: T,
}

/// Answer to a device query.
#[derive(Debug, Clone)]
pub struct GetDeviceResponseData {
    pub status: String,
}

/// Answer to a device specification query.
#[derive(Debug, Clone)]
pub struct GetDeviceSpecsResponseData {
    pub specs: String,
}

/// Answer to a batch creation.
#[derive(Debug, Clone)]
pub struct CreateBatchResponseData {
    pub id: String,
}

/// Answer to a batch query.
#[derive(Debug, Clone)]
pub struct GetBatchResponseData {
    pub status: BatchStatus,
}

/// Answer to a batch cancellation.
#[derive(Debug, Clone)]
pub struct CancelBatchResponseData {}

/// Answer to a results-link query: job identifier and result address, per job.
#[derive(Debug, Clone)]
pub struct GetBatchResultLinksResponseData {
    pub results_links: Vec<(String, String)>,
}

/// A job of a batch.
#[derive(Debug, Clone)]
pub struct Job {
    pub runs: i32,
}

/// A batch creation request.
#[derive(Debug, Clone)]
pub struct Batch {
    pub sequence_builder: String,
    pub jobs: Vec<Job>,
    pub device_type: DeviceType,
    pub project_id: String,
}

/// The address that a Pasqal Cloud client sends its requests to.
#[derive(Debug, Clone)]
pub struct Client {
    /// The base URL this client sends requests to.
    pub base_url: String,
    /// The project that owns the batches.
    pub project_id: String,
}

/// The base URL of Pasqal Cloud.
pub open spec fn spec_default_base_url() -> Seq<char> {
    "https://apis.pasqal.cloud"@
}

/// A [`ClientBuilder`] can be used to create a [`Client`] with custom configuration.
#[derive(Debug, Clone)]
pub struct ClientBuilder {
    /// The base URL this client sends requests to.
    pub base_url: String,
    /// The authentication token.
    pub token: String,
    /// The project that owns the batches.
    pub project_id: String,
}

impl ClientBuilder {
    /// Constructs a new [`ClientBuilder`] for Pasqal Cloud.
    pub fn new(token: String, project_id: String) -> (r: Self)
        ensures
            r.base_url@ == spec_default_base_url(),
            r.token == token,
            r.project_id == project_id,
    {
        ClientBuilder { base_url: String::from_str("https://apis.pasqal.cloud"), token, project_id }
    }

    /// The headers that every request carries: JSON content and the bearer token.
    pub open spec fn spec_default_headers(self) -> Seq<(Seq<char>, Seq<char>)> {
        seq![("content-type"@, "application/json"@), ("authorization"@, "Bearer "@ + self.token@)]
    }

    /// Returns the headers that every request carries.
    pub fn default_headers(&self) -> (r: Vec<(String, String)>)
        ensures
            r@.len() == 2,
            forall|i: int|
                0 <= i < 2 ==> (#[trigger] r@[i]).0@ == self.spec_default_headers()[i].0 && r@[i].1@
                    == self.spec_default_headers()[i].1,
    {
        let mut r: Vec<(String, String)> = Vec::new();
        r.push((String::from_str("content-type"), String::from_str("application/json")));
        r.push((String::from_str("authorization"), concat2("Bearer ", self.token.as_str())));
        r
    }

    /// Returns the [`Client`] address that this builder describes.
    pub fn build(&self) -> (r: Client)
        ensures
            r.base_url == self.base_url,
            r.project_id == self.project_id,
    {
        Client { base_url: self.base_url.clone(), project_id: self.project_id.clone() }
    }
}

/// The address of the device query for `device_type`.
pub open spec fn spec_device_url(base: Seq<char>, device_type: DeviceType) -> Seq<char> {
    base + "/core-fast/api/v1/devices?device_type="@ + device_type.spec_name()
}

/// The address of batch creation.
pub open spec fn spec_batches_url(base: Seq<char>) -> Seq<char> {
    base + "/core-fast/api/v1/batches"@
}

/// The address of the cancellation of batch `id`.
pub open spec fn spec_cancel_batch_url(base: Seq<char>, id: Seq<char>) -> Seq<char> {
    base + "/core-fast/api/v2/batches/"@ + id + "/cancel"@
}

/// The address of batch `id`.
pub open spec fn spec_batch_url(base: Seq<char>, id: Seq<char>) -> Seq<char> {
    base + "/core-fast/api/v2/batches/"@ + id
}

/// The address of the result links of batch `id`.
pub open spec fn spec_results_link_url(base: Seq<char>, id: Seq<char>) -> Seq<char> {
    base + "/core-fast/api/v1/batches/"@ + id + "/results_link"@
}

/// The address of the specification of `device_type`.
pub open spec fn spec_device_specs_url(base: Seq<char>, device_type: DeviceType) -> Seq<char> {
    base + "/core-fast/api/v1/devices/specs/"@ + device_type.spec_name()
}

impl Client {
    /// Returns the address of the device query for `device_type`.
    pub fn device_url(&self, device_type: DeviceType) -> (r: String)
        ensures
            r@ == spec_device_url(self.base_url@, device_type),
    {
        concat3(self.base_url.as_str(), "/core-fast/api/v1/devices?device_type=", device_type.name())
    }

    /// Returns the address of batch creation.
    pub fn batches_url(&self) -> (r: String)
        ensures
            r@ == spec_batches_url(self.base_url@),
    {
        concat2(self.base_url.as_str(), "/core-fast/api/v1/batches")
    }

    /// Returns the address of the cancellation of batch `batch_id`.
    pub fn cancel_batch_url(&self, batch_id: &str) -> (r: String)
        ensures
            r@ == spec_cancel_batch_url(self.base_url@, batch_id@),
    {
        concat4(self.base_url.as_str(), "/core-fast/api/v2/batches/", batch_id, "/cancel")
    }

    /// Returns the address of batch `batch_id`.
    pub fn batch_url(&self, batch_id: &str) -> (r: String)
        ensures
            r@ == spec_batch_url(self.base_url@, batch_id@),
    {
        concat3(self.base_url.as_str(), "/core-fast/api/v2/batches/", batch_id)
    }

    /// Returns the address of the result links of batch `batch_id`.
    pub fn results_link_url(&self, batch_id: &str) -> (r: String)
        ensures
            r@ == spec_results_link_url(self.base_url@, batch_id@),
    {
        concat4(self.base_url.as_str(), "/core-fast/api/v1/batches/", batch_id, "/results_link")
    }

    /// Returns the address of the specification of `device_type`.
    pub fn device_specs_url(&self, device_type: DeviceType) -> (r: String)
        ensures
            r@ == spec_device_specs_url(self.base_url@, device_type),
    {
        concat3(self.base_url.as_str(), "/core-fast/api/v1/devices/specs/", device_type.name())
    }

    /// Returns the body of a batch creation request: the pulse sequence as one
    /// job of `job_runs` runs on `device_type`, in this client's project.
    pub fn create_batch_body(&self, sequence: String, job_runs: i32, device_type: DeviceType) -> (r: Batch)
        ensures
            r.sequence_builder == sequence,
            r.jobs@.len() == 1,
            r.jobs@[0].runs == job_runs,
            r.device_type == device_type,
            r.project_id == self.project_id,
    {
        let mut jobs: Vec<Job> = Vec::new();
        jobs.push(Job { runs: job_runs });
        Batch { sequence_builder: sequence, jobs, device_type, project_id: self.project_id.clone() }
    }
}

/// Picks the address to fetch the result from: that of the first job of the
/// batch; a batch without jobs has no result to give.
pub fn select_result_link(links: &GetBatchResultLinksResponseData) -> (r: Result<String, QrmiError>)
    ensures
        links.results_links@.len() == 0 ==> r matches Err(QrmiError::NoResultsFound),
        links.results_links@.len() > 0 ==> (r matches Ok(l) && l == links.results_links@[0].1),
{
    if links.results_links.len() == 0 {
        Err(QrmiError::NoResultsFound)
    } else {
        Ok(links.results_links[0].1.clone())
    }
}

/// Checks, once the first job's result has been fetched, that the batch
/// holds no second job: by design a batch runs a single job.
pub fn check_single_job(links: &GetBatchResultLinksResponseData) -> (r: Result<(), QrmiError>)
    ensures
        links.results_links@.len() > 1 ==> r matches Err(QrmiError::MultipleJobsInBatch),
        links.results_links@.len() <= 1 ==> r is Ok,
{
    if links.results_links.len() > 1 {
        Err(QrmiError::MultipleJobsInBatch)
    } else {
        Ok(())
    }
}

/// Reads a reply: a success status hands its body on as the answer, any
/// other status fails, naming the status and the body.
pub fn handle_response(success: bool, status: String, body: String) -> (r: Result<String, QrmiError>)
    ensures
        success ==> r == Ok::<String, QrmiError>(body),
        !success ==> r == Err::<String, QrmiError>(QrmiError::HttpStatus { status, body }),
{
    if success {
        Ok(body)
    } else {
        Err(QrmiError::HttpStatus { status, body })
    }
}

/// Accepts the text fetched from a result address: an empty text means that
/// no result was found.
pub fn check_batch_results(results: String) -> (r: Result<String, QrmiError>)
    ensures
        results@.len() == 0 ==> r matches Err(QrmiError::NoResultsFound),
        results@.len() > 0 ==> r == Ok::<String, QrmiError>(results),
{
    if results.as_str().is_empty() {
        Err(QrmiError::NoResultsFound)
    } else {
        Ok(results)
    }
}

} // verus!

//! Qiskit Runtime API models, with the wire names of their enumerations.
use vstd::prelude::*;

use crate::text::text_eq;

verus! {

/// Logging level of the program.
#[derive(Debug, Clone, Copy, PartialEq, Eq, Structural)]
pub enum LogLevel {
    Critical,
    Error,
    Warning,
    Info,
    Debug,
}

impl LogLevel {
    /// The name of the level on the wire.
    pub open spec fn spec_wire_name(self) -> Seq<char> {
        match self {
            LogLevel::Critical => "critical"@,
            LogLevel::Error => "error"@,
            LogLevel::Warning => "warning"@,
            LogLevel::Info => "info"@,
            LogLevel::Debug => "debug"@,
        }
    }

    /// Returns the name of the level on the wire.
    pub fn wire_name(&self) -> (r: &'static str)
        ensures
            r@ == self.spec_wire_name(),
    {
        match self {
            LogLevel::Critical => "critical",
            LogLevel::Error => "error",
            LogLevel::Warning => "warning",
            LogLevel::Info => "info",
            LogLevel::Debug => "debug",
        }
    }

    /// Reads a level from its name on the wire.
    pub fn from_wire_name(name: &str) -> (r: Option<LogLevel>)
        ensures
            match r {
                Some(l) => l.spec_wire_name() == name@,
                None => forall|l: LogLevel| l.spec_wire_name() != name@,
            },
    {
        if text_eq(name, "critical") {
            Some(LogLevel::Critical)
        } else if text_eq(name, "error") {
            Some(LogLevel::Error)
        } else if text_eq(name, "warning") {
            Some(LogLevel::Warning)
        } else if text_eq(name, "info") {
            Some(LogLevel::Info)
        } else if text_eq(name, "debug") {
            Some(LogLevel::Debug)
        } else {
            None
        }
    }

    /// The default level is `Critical`.
    pub fn default() -> (r: LogLevel)
        ensures
            r == LogLevel::Critical,
    {
        LogLevel::Critical
    }
}

/// Each logging level is written as its own lower-case name.
pub proof fn lemma_log_level_text(l: LogLevel)
    ensures
        (l == LogLevel::Critical) <==> l.spec_wire_name() == "critical"@,
        (l == LogLevel::Error) <==> l.spec_wire_name() == "error"@,
        (l == LogLevel::Warning) <==> l.spec_wire_name() == "warning"@,
        (l == LogLevel::Info) <==> l.spec_wire_name() == "info"@,
        (l == LogLevel::Debug) <==> l.spec_wire_name() == "debug"@,
{
    reveal_strlit("critical");
    reveal_strlit("error");
    reveal_strlit("warning");
    reveal_strlit("info");
    reveal_strlit("debug");
    let w = l.spec_wire_name();
    assert(w[0] == "critical"@[0] ==> w == "critical"@);
    assert(w[0] == "error"@[0] ==> w == "error"@);
    assert(w[0] == "warning"@[0] ==> w == "warning"@);
    assert(w[0] == "info"@[0] ==> w == "info"@);
    assert(w[0] == "debug"@[0] ==> w == "debug"@);
}

/// Distinct LogLevel values have distinct names, so reading the name of a
/// value gives the value back.
pub proof fn lemma_log_level_names_distinct(a: LogLevel, b: LogLevel)
    requires
        a.spec_wire_name() == b.spec_wire_name(),
    ensures
        a == b,
{
    reveal_strlit("critical");
    reveal_strlit("error");
    reveal_strlit("warning");
    reveal_strlit("info");
    reveal_strlit("debug");
    assert("critical"@[0] == 'c');
    assert("error"@[0] == 'e');
    assert("warning"@[0] == 'w');
    assert("info"@[0] == 'i');
    assert("debug"@[0] == 'd');
    assert(a.spec_wire_name()[0] == b.spec_wire_name()[0]);
}

/// Kind of remote storage.
#[derive(Debug, Clone, Copy, PartialEq, Eq, Structural)]
pub enum Type {
    IbmcloudCos,
}

impl Type {
    /// The name of the kind on the wire.
    pub open spec fn spec_wire_name(self) -> Seq<char> {
        match self {
            Type::IbmcloudCos => "ibmcloud_cos"@,
        }
    }

    /// Returns the name of the kind on the wire.
    pub fn wire_name(&self) -> (r: &'static str)
        ensures
            r@ == self.spec_wire_name(),
    {
        match self {
            Type::IbmcloudCos => "ibmcloud_cos",
        }
    }

    /// Reads a kind from its name on the wire.
    pub fn from_wire_name(name: &str) -> (r: Option<Type>)
        ensures
            match r {
                Some(t) => t.spec_wire_name() == name@,
                None => forall|t: Type| t.spec_wire_name() != name@,
            },
    {
        if text_eq(name, "ibmcloud_cos") {
            Some(Type::IbmcloudCos)
        } else {
            None
        }
    }

    /// The default kind is IBM Cloud Object Storage.
    pub fn default() -> (r: Type)
        ensures
            r == Type::IbmcloudCos,
    {
        Type::IbmcloudCos
    }
}

/// Region kind of IBM Cloud Object Storage.
#[derive(Debug, Clone, Copy, PartialEq, Eq, Structural)]
pub enum RegionType {
    Regional,
    CrossRegion,
    SingleSite,
}

impl RegionType {
    /// The name of the region kind on the wire.
    pub open spec fn spec_wire_name(self) -> Seq<char> {
        match self {
            RegionType::Regional => "regional"@,
            RegionType::CrossRegion => "cross-region"@,
            RegionType::SingleSite => "single-site"@,
        }
    }

    /// Returns the name of the region kind on the wire.
    pub fn wire_name(&self) -> (r: &'static str)
        ensures
            r@ == self.spec_wire_name(),
    {
        match self {
            RegionType::Regional => "regional",
            RegionType::CrossRegion => "cross-region",
            RegionType::SingleSite => "single-site",
        }
    }

    /// Reads a region kind from its name on the wire.
    pub fn from_wire_name(name: &str) -> (r: Option<RegionType>)
        ensures
            match r {
                Some(t) => t.spec_wire_name() == name@,
                None => forall|t: RegionType| t.spec_wire_name() != name@,
            },
    {
        if text_eq(name, "regional") {
            Some(RegionType::Regional)
        } else if text_eq(name, "cross-region") {
            Some(RegionType::CrossRegion)
        } else if text_eq(name, "single-site") {
            Some(RegionType::SingleSite)
        } else {
            None
        }
    }

    /// The default region kind is regional.
    pub fn default() -> (r: RegionType)
        ensures
            r == RegionType::Regional,
    {
        RegionType::Regional
    }
}

/// Each region kind is written as its own name.
pub proof fn lemma_region_type_text(t: RegionType)
    ensures
        (t == RegionType::Regional) <==> t.spec_wire_name() == "regional"@,
        (t == RegionType::CrossRegion) <==> t.spec_wire_name() == "cross-region"@,
        (t == RegionType::SingleSite) <==> t.spec_wire_name() == "single-site"@,
{
    reveal_strlit("regional");
    reveal_strlit("cross-region");
    reveal_strlit("single-site");
    let w = t.spec_wire_name();
    assert(w[0] == "regional"@[0] ==> w == "regional"@);
    assert(w[0] == "cross-region"@[0] ==> w == "cross-region"@);
    assert(w[0] == "single-site"@[0] ==> w == "single-site"@);
}

/// Distinct RegionType values have distinct names, so reading the name of a
/// value gives the value back.
pub proof fn lemma_region_type_names_distinct(a: RegionType, b: RegionType)
    requires
        a.spec_wire_name() == b.spec_wire_name(),
    ensures
        a == b,
{
    reveal_strlit("regional");
    reveal_strlit("cross-region");
    reveal_strlit("single-site");
    assert("regional"@[0] == 'r');
    assert("cross-region"@[0] == 'c');
    assert("single-site"@[0] == 's');
    assert(a.spec_wire_name()[0] == b.spec_wire_name()[0]);
}

/// Where the job parameters are stored.
#[derive(Debug, Clone)]
pub struct RemoteStorageJobParams {
    /// Name of the object in the bucket.
    pub object_name: String,
}

/// Where the results are stored.
#[derive(Debug, Clone)]
pub struct RemoteStorageResults {
    /// Name of the object in the bucket.
    pub object_name: String,
}

/// Where the logs are stored.
#[derive(Debug, Clone)]
pub struct RemoteStorageLogs {
    /// Name of the object in the bucket.
    pub object_name: String,
}

/// Where the transpiled circuits are stored.
#[derive(Debug, Clone)]
pub struct RemoteStorageTranspiledCircuits {
    /// Name of the object in the bucket.
    pub object_name: String,
}

/// Remote storage of a job in IBM Cloud Object Storage.
#[derive(Debug, Clone)]
pub struct JobResponseRemoteStorage {
    pub storage_type: Option<Type>,
    /// Region, Cross-Region, or Single Data Center.
    pub region: String,
    pub region_type: RegionType,
    /// CRN of the target Cloud Object Storage bucket.
    pub bucket_crn: String,
    /// Name/ID of the object in the bucket.
    pub object_name: String,
    pub job_params: Box<RemoteStorageJobParams>,
    pub results: Box<RemoteStorageResults>,
    pub logs: Option<Box<RemoteStorageLogs>>,
    pub transpiled_circuits: Option<Box<RemoteStorageTranspiledCircuits>>,
}

impl JobResponseRemoteStorage {
    /// Remote storage with the required members; the optional ones are unset.
    pub fn new(
        region: String,
        region_type: RegionType,
        bucket_crn: String,
        object_name: String,
        job_params: RemoteStorageJobParams,
        results: RemoteStorageResults,
    ) -> (r: JobResponseRemoteStorage)
        ensures
            r.storage_type is None,
            r.region == region,
            r.region_type == region_type,
            r.bucket_crn == bucket_crn,
            r.object_name == object_name,
            *r.job_params == job_params,
            *r.results == results,
            r.logs is None,
            r.transpiled_circuits is None,
    {
        JobResponseRemoteStorage {
            storage_type: None,
            region,
            region_type,
            bucket_crn,
            object_name,
            job_params: Box::new(job_params),
            results: Box::new(results),
            logs: None,
            transpiled_circuits: None,
        }
    }
}

/// A job request that keeps its data in remote storage.
#[derive(Debug, Clone)]
pub struct CreateJobRequestOneOf1 {
    /// ID of the program to be executed.
    pub program_id: String,
    /// Name that identifies the backend on which to run the program.
    pub backend: String,
    /// Name and tag of the image to use when running a program.
    pub runtime: Option<String>,
    /// List of job or program tags.
    pub tags: Option<Vec<String>>,
    /// Logging level of the program.
    pub log_level: Option<LogLevel>,
    /// Cost of the job as the estimated time it should take to complete (in seconds).
    pub cost: Option<u64>,
    /// Identifier of the session that the job is a part of.
    pub session_id: Option<String>,
    pub remote_storage: Box<JobResponseRemoteStorage>,
}

impl CreateJobRequestOneOf1 {
    /// A request with the required members; the optional ones are unset.
    pub fn new(program_id: String, backend: String, remote_storage: JobResponseRemoteStorage) -> (r:
        CreateJobRequestOneOf1)
        ensures
            r.program_id == program_id,
            r.backend == backend,
            r.runtime is None,
            r.tags is None,
            r.log_level is None,
            r.cost is None,
            r.session_id is None,
            *r.remote_storage == remote_storage,
    {
        CreateJobRequestOneOf1 {
            program_id,
            backend,
            runtime: None,
            tags: None,
            log_level: None,
            cost: None,
            session_id: None,
            remote_storage: Box::new(remote_storage),
        }
    }
}

/// When a job was created, started running and finished (UTC timestamps).
#[derive(Debug, Clone)]
pub struct JobMetricsTimestamps {
    pub created: Option<String>,
    pub finished: Option<String>,
    pub running: Option<String>,
}

/// Time the job spent on the quantum backend.
#[derive(Debug, Clone)]
pub struct JobMetricsBss {
    /// Seconds of quantum time.
    pub seconds: Option<i32>,
}

/// Various metrics about the execution of a job.
#[derive(Debug, Clone)]
pub struct JobMetrics {
    /// When the job was created, started running and finished.
    pub timestamps: Option<Box<JobMetricsTimestamps>>,
    /// Time the job spent on the quantum backend.
    pub bss: Option<Box<JobMetricsBss>>,
    /// Number of executions during job.
    pub executions: Option<i32>,
    /// Number of circuits executed on quantum backend.
    pub num_circuits: Option<i32>,
    /// Number of qubits on quantum backend.
    pub num_qubits: Option<Vec<i32>>,
    /// An array of circuit depths.
    pub circuit_depths: Option<Vec<i32>>,
    /// Qiskit version used during execution of the job.
    pub qiskit_version: Option<String>,
    /// UTC timestamp for when the job will start.
    pub estimated_start_time: Option<String>,
    /// UTC timestamp for when the job will complete.
    pub estimated_completion_time: Option<String>,
    /// Current position of job in queue.
    pub position_in_queue: Option<i32>,
    /// Current position of job in provider.
    pub position_in_provider: Option<i32>,
}

impl JobMetrics {
    /// Metrics with every member unset.
    pub fn new() -> (r: JobMetrics)
        ensures
            r.timestamps is None,
            r.bss is None,
            r.executions is None,
            r.num_circuits is None,
            r.num_qubits is None,
            r.circuit_depths is None,
            r.qiskit_version is None,
            r.estimated_start_time is None,
            r.estimated_completion_time is None,
            r.position_in_queue is None,
            r.position_in_provider is None,
    {
        JobMetrics {
            timestamps: None,
            bss: None,
            executions: None,
            num_circuits: None,
            num_qubits: None,
            circuit_depths: None,
            qiskit_version: None,
            estimated_start_time: None,
            estimated_completion_time: None,
            position_in_queue: None,
            position_in_provider: None,
        }
    }
}

/// Status of a Qiskit Runtime job.
#[derive(Debug, Clone, Copy, PartialEq, Eq, Structural)]
pub enum JobResponseStatus {
    Queued,
    Running,
    Completed,
    Cancelled,
    CancelledRanTooLong,
    Failed,
}

impl JobResponseStatus {
    /// The name of the status on the wire.
    pub open spec fn spec_wire_name(self) -> Seq<char> {
        match self {
            JobResponseStatus::Queued => "Queued"@,
            JobResponseStatus::Running => "Running"@,
            JobResponseStatus::Completed => "Completed"@,
            JobResponseStatus::Cancelled => "Cancelled"@,
            JobResponseStatus::CancelledRanTooLong => "Cancelled - Ran too long"@,
            JobResponseStatus::Failed => "Failed"@,
        }
    }

    /// The variant name, as the `Debug` form prints it.
    pub open spec fn spec_debug_name(self) -> Seq<char> {
        match self {
            JobResponseStatus::Queued => "Queued"@,
            JobResponseStatus::Running => "Running"@,
            JobResponseStatus::Completed => "Completed"@,
            JobResponseStatus::Cancelled => "Cancelled"@,
            JobResponseStatus::CancelledRanTooLong => "CancelledRanTooLong"@,
            JobResponseStatus::Failed => "Failed"@,
        }
    }

    /// Returns the variant name, as the `Debug` form prints it.
    pub fn debug_name(&self) -> (r: &'static str)
        ensures
            r@ == self.spec_debug_name(),
    {
        match self {
            JobResponseStatus::Queued => "Queued",
            JobResponseStatus::Running => "Running",
            JobResponseStatus::Completed => "Completed",
            JobResponseStatus::Cancelled => "Cancelled",
            JobResponseStatus::CancelledRanTooLong => "CancelledRanTooLong",
            JobResponseStatus::Failed => "Failed",
        }
    }

    /// Reads a status from its name on the wire.
    pub fn from_wire_name(name: &str) -> (r: Option<JobResponseStatus>)
        ensures
            match r {
                Some(s) => s.spec_wire_name() == name@,
                None => forall|s: JobResponseStatus| s.spec_wire_name() != name@,
            },
    {
        if text_eq(name, "Queued") {
            Some(JobResponseStatus::Queued)
        } else if text_eq(name, "Running") {
            Some(JobResponseStatus::Running)
        } else if text_eq(name, "Completed") {
            Some(JobResponseStatus::Completed)
        } else if text_eq(name, "Cancelled") {
            Some(JobResponseStatus::Cancelled)
        } else if text_eq(name, "Cancelled - Ran too long") {
            Some(JobResponseStatus::CancelledRanTooLong)
        } else if text_eq(name, "Failed") {
            Some(JobResponseStatus::Failed)
        } else {
            None
        }
    }
}

/// Distinct JobResponseStatus values have distinct names, so reading the name of a
/// value gives the value back.
pub proof fn lemma_job_response_status_names_distinct(a: JobResponseStatus, b: JobResponseStatus)
    requires
        a.spec_wire_name() == b.spec_wire_name(),
    ensures
        a == b,
{
    reveal_strlit("Queued");
    reveal_strlit("Running");
    reveal_strlit("Completed");
    reveal_strlit("Cancelled");
    reveal_strlit("Cancelled - Ran too long");
    reveal_strlit("Failed");
    assert("Queued"@[0] == 'Q' && "Queued"@[1] == 'u' && "Queued"@.len() == 6);
    assert("Running"@[0] == 'R' && "Running"@[1] == 'u' && "Running"@.len() == 7);
    assert("Completed"@[0] == 'C' && "Completed"@[1] == 'o' && "Completed"@.len() == 9);
    assert("Cancelled"@[0] == 'C' && "Cancelled"@[1] == 'a' && "Cancelled"@.len() == 9);
    assert("Cancelled - Ran too long"@[0] == 'C' && "Cancelled - Ran too long"@[1] == 'a' && "Cancelled - Ran too long"@.len() == 24);
    assert("Failed"@[0] == 'F' && "Failed"@[1] == 'a' && "Failed"@.len() == 6);
    assert(a.spec_wire_name()[0] == b.spec_wire_name()[0]);
    assert(a.spec_wire_name()[1] == b.spec_wire_name()[1]);
    assert(a.spec_wire_name().len() == b.spec_wire_name().len());
}

/// The members of a job that the library reads.
#[derive(Debug, Clone)]
pub struct JobResponse {
    /// Identifier of the job.
    pub id: String,
    /// Status of the job.
    pub status: JobResponseStatus,
}

/// Jobs collection response.
#[derive(Debug, Clone)]
pub struct JobsResponse {
    /// A list of jobs.
    pub jobs: Option<Vec<JobResponse>>,
    /// Total number of jobs for the user.
    pub count: Option<i32>,
    /// Offset at which paginated results are returned.
    pub offset: i32,
    /// Maximum number of results returned in the paginated response.
    pub limit: i32,
}

impl JobsResponse {
    /// A page without jobs at `offset` of at most `limit` jobs.
    pub fn new(offset: i32, limit: i32) -> (r: JobsResponse)
        ensures
            r.jobs is None,
            r.count is None,
            r.offset == offset,
            r.limit == limit,
    {
        JobsResponse { jobs: None, count: None, offset, limit }
    }
}

/// The API versions that the service offers.
#[derive(Debug, Clone)]
pub struct VersionResponse {
    pub versions: Vec<String>,
}

impl VersionResponse {
    /// The answer listing `versions`.
    pub fn new(versions: Vec<String>) -> (r: VersionResponse)
        ensures
            r.versions == versions,
    {
        VersionResponse { versions }
    }
}

/// Session execution mode.
#[derive(Debug, Clone, Copy, PartialEq, Eq, Structural)]
pub enum SessionMode {
    Batch,
    Dedicated,
}

impl SessionMode {
    /// The name of the mode on the wire.
    pub open spec fn spec_wire_name(self) -> Seq<char> {
        match self {
            SessionMode::Batch => "batch"@,
            SessionMode::Dedicated => "dedicated"@,
        }
    }

    /// Returns the name of the mode on the wire.
    pub fn wire_name(&self) -> (r: &'static str)
        ensures
            r@ == self.spec_wire_name(),
    {
        match self {
            SessionMode::Batch => "batch",
            SessionMode::Dedicated => "dedicated",
        }
    }
}

/// A session creation request.
#[derive(Debug, Clone)]
pub struct CreateSessionRequest {
    /// Maximum time to live of the session, in seconds.
    pub max_ttl: Option<u64>,
    /// Execution mode.
    pub mode: SessionMode,
    /// The backend that the session runs on.
    pub backend: String,
}

/// The new tags of a job.
#[derive(Debug, Clone)]
pub struct ReplaceJobTagsRequest {
    /// The tags that replace those of the job.
    pub tags: Vec<String>,
}

/// The new state of a session.
#[derive(Debug, Clone, Copy, PartialEq, Eq, Structural)]
pub struct UpdateSessionStateRequest {
    /// Whether the session accepts new jobs.
    pub accepting_jobs: bool,
}

/// A job request that carries its parameters inline.
#[derive(Debug)]
pub struct CreateJobRequest {
    /// ID of the program to be executed.
    pub program_id: String,
    /// Name that identifies the backend on which to run the program.
    pub backend: String,
    /// Name and tag of the image to use when running a program.
    pub runtime: Option<String>,
    /// List of job or program tags.
    pub tags: Option<Vec<String>>,
    /// Logging level of the program.
    pub log_level: Option<LogLevel>,
    /// Cost of the job in seconds.
    pub cost: Option<u64>,
    /// Identifier of the session that the job is a part of.
    pub session_id: Option<String>,
    /// The primitive input, when it is a JSON object.
    pub params: Option<serde_json::Value>,
}

} // verus!

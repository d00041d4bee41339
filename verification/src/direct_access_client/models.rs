//! Direct Access API models, with the wire names of their enumerations.
use vstd::prelude::*;

use crate::text::text_eq;

verus! {

/// Number of register slots assumed when a configuration names none.
pub fn default_n_registers() -> (r: u64)
    ensures
        r == 1,
{
    1
}

/// Value of a flag that a configuration leaves out.
pub fn default_false() -> (r: bool)
    ensures
        r == false,
{
    false
}

/// Value of a name list that a configuration leaves out.
pub fn empty_string_array() -> (r: Vec<String>)
    ensures
        r@.len() == 0,
{
    Vec::new()
}

/// Gate configuration.
#[derive(Debug, Clone)]
pub struct GateConfig {
    /// Name of the instruction in QASM.
    pub name: String,
    /// Names of the instruction's parameters, if any.
    pub parameters: Vec<String>,
    /// List of qubit groupings which are coupled by this gate.
    pub coupling_map: Option<Vec<Vec<u64>>>,
    /// Definition of this gate in terms of QASM primitives U and CX.
    pub qasm_def: String,
    /// This specified gate supports conditional operations.
    pub conditional: bool,
    /// Register latency of its conditional operations (1 fast, 0 slow).
    pub latency_map: Option<Vec<Vec<u64>>>,
    /// Description of the operation.
    pub description: Option<String>,
}

/// Processor type.
#[derive(Debug, Clone)]
pub struct ProcessorType {
    /// Processor family indicates quantum chip architecture.
    pub family: String,
    /// Revision number reflects design variants within a given processor family.
    pub revision: String,
    /// Segment distinguishes different subsets of the qubit fabric/chip.
    pub segment: Option<String>,
}

/// Timing constraints.
#[derive(Debug, Clone)]
pub struct TimingConstraints {
    /// Waveform memory data chunk size.
    pub granularity: u64,
    /// Minimum number of samples required to define a pulse.
    pub min_length: u64,
    /// Instruction triggering time resolution of pulse channel in units of dt.
    pub pulse_alignment: u64,
    /// Instruction triggering time resolution of acquisition channel in units of dt.
    pub acquire_alignment: u64,
}

/// Status of a Direct Access job.
#[derive(Debug, Clone, Copy, PartialEq, Eq, Structural)]
pub enum JobStatus {
    Running,
    Completed,
    Cancelled,
    Failed,
}

impl JobStatus {
    /// The name of the status on the wire.
    pub open spec fn spec_wire_name(self) -> Seq<char> {
        match self {
            JobStatus::Running => "Running"@,
            JobStatus::Completed => "Completed"@,
            JobStatus::Cancelled => "Cancelled"@,
            JobStatus::Failed => "Failed"@,
        }
    }

    /// Returns the name of the status on the wire.
    pub fn wire_name(&self) -> (r: &'static str)
        ensures
            r@ == self.spec_wire_name(),
    {
        match self {
            JobStatus::Running => "Running",
            JobStatus::Completed => "Completed",
            JobStatus::Cancelled => "Cancelled",
            JobStatus::Failed => "Failed",
        }
    }

    /// Reads a status from its name on the wire.
    pub fn from_wire_name(name: &str) -> (r: Option<JobStatus>)
        ensures
            match r {
                Some(s) => s.spec_wire_name() == name@,
                None => forall|s: JobStatus| s.spec_wire_name() != name@,
            },
    {
        if text_eq(name, "Running") {
            Some(JobStatus::Running)
        } else if text_eq(name, "Completed") {
            Some(JobStatus::Completed)
        } else if text_eq(name, "Cancelled") {
            Some(JobStatus::Cancelled)
        } else if text_eq(name, "Failed") {
            Some(JobStatus::Failed)
        } else {
            None
        }
    }

    /// A job leaves the running state for good.
    pub open spec fn spec_is_final(self) -> bool {
        self != JobStatus::Running
    }

    /// Returns true when the job is in a final state: it is no longer running.
    pub fn is_final(&self) -> (r: bool)
        ensures
            r == self.spec_is_final(),
    {
        match self {
            JobStatus::Running => false,
            _ => true,
        }
    }
}

/// Distinct JobStatus values have distinct names, so reading the name of a
/// value gives the value back.
pub proof fn lemma_job_status_names_distinct(a: JobStatus, b: JobStatus)
    requires
        a.spec_wire_name() == b.spec_wire_name(),
    ensures
        a == b,
{
    reveal_strlit("Running");
    reveal_strlit("Completed");
    reveal_strlit("Cancelled");
    reveal_strlit("Failed");
    assert("Running"@[0] == 'R' && "Running"@[1] == 'u');
    assert("Completed"@[0] == 'C' && "Completed"@[1] == 'o');
    assert("Cancelled"@[0] == 'C' && "Cancelled"@[1] == 'a');
    assert("Failed"@[0] == 'F' && "Failed"@[1] == 'a');
    assert(a.spec_wire_name()[0] == b.spec_wire_name()[0]);
    assert(a.spec_wire_name()[1] == b.spec_wire_name()[1]);
}

/// Status of a backend.
#[derive(Debug, Clone, Copy, PartialEq, Eq, Structural)]
pub enum BackendStatus {
    Online,
    Offline,
    Paused,
}

impl BackendStatus {
    /// The name of the status on the wire.
    pub open spec fn spec_wire_name(self) -> Seq<char> {
        match self {
            BackendStatus::Online => "online"@,
            BackendStatus::Offline => "offline"@,
            BackendStatus::Paused => "paused"@,
        }
    }

    /// Reads a status from its name on the wire.
    pub fn from_wire_name(name: &str) -> (r: Option<BackendStatus>)
        ensures
            match r {
                Some(s) => s.spec_wire_name() == name@,
                None => forall|s: BackendStatus| s.spec_wire_name() != name@,
            },
    {
        if text_eq(name, "online") {
            Some(BackendStatus::Online)
        } else if text_eq(name, "offline") {
            Some(BackendStatus::Offline)
        } else if text_eq(name, "paused") {
            Some(BackendStatus::Paused)
        } else {
            None
        }
    }
}

/// Distinct BackendStatus values have distinct names, so reading the name of a
/// value gives the value back.
pub proof fn lemma_backend_status_names_distinct(a: BackendStatus, b: BackendStatus)
    requires
        a.spec_wire_name() == b.spec_wire_name(),
    ensures
        a == b,
{
    reveal_strlit("online");
    reveal_strlit("offline");
    reveal_strlit("paused");
    assert("online"@[0] == 'o' && "online"@[1] == 'n');
    assert("offline"@[0] == 'o' && "offline"@[1] == 'f');
    assert("paused"@[0] == 'p' && "paused"@[1] == 'a');
    assert(a.spec_wire_name()[0] == b.spec_wire_name()[0]);
    assert(a.spec_wire_name()[1] == b.spec_wire_name()[1]);
}

/// Qiskit Runtime primitives.
#[derive(Debug, Clone, Copy, PartialEq, Eq, Structural)]
pub enum ProgramId {
    Sampler,
    Estimator,
}

impl ProgramId {
    /// The name of the primitive.
    pub open spec fn spec_wire_name(self) -> Seq<char> {
        match self {
            ProgramId::Sampler => "sampler"@,
            ProgramId::Estimator => "estimator"@,
        }
    }

    /// Returns the name of the primitive.
    pub fn wire_name(&self) -> (r: &'static str)
        ensures
            r@ == self.spec_wire_name(),
    {
        match self {
            ProgramId::Sampler => "sampler",
            ProgramId::Estimator => "estimator",
        }
    }

    /// Reads a primitive from its name.
    pub fn from_wire_name(name: &str) -> (r: Option<ProgramId>)
        ensures
            match r {
                Some(p) => p.spec_wire_name() == name@,
                None => forall|p: ProgramId| p.spec_wire_name() != name@,
            },
    {
        if text_eq(name, "sampler") {
            Some(ProgramId::Sampler)
        } else if text_eq(name, "estimator") {
            Some(ProgramId::Estimator)
        } else {
            None
        }
    }
}

/// The primitive run is the one whose name the payload gives: `sampler` or `estimator`.
pub proof fn lemma_program_id_text(p: ProgramId)
    ensures
        (p == ProgramId::Sampler) <==> p.spec_wire_name() == "sampler"@,
        (p == ProgramId::Estimator) <==> p.spec_wire_name() == "estimator"@,
{
    reveal_strlit("sampler");
    reveal_strlit("estimator");
    let w = p.spec_wire_name();
    assert(w[0] == "sampler"@[0] ==> w == "sampler"@);
    assert(w[0] == "estimator"@[0] ==> w == "estimator"@);
}

/// Distinct ProgramId values have distinct names, so reading the name of a
/// value gives the value back.
pub proof fn lemma_program_id_names_distinct(a: ProgramId, b: ProgramId)
    requires
        a.spec_wire_name() == b.spec_wire_name(),
    ensures
        a == b,
{
    reveal_strlit("sampler");
    reveal_strlit("estimator");
    assert("sampler"@[0] == 's');
    assert("estimator"@[0] == 'e');
    assert(a.spec_wire_name()[0] == b.spec_wire_name()[0]);
}

/// Logging level of a primitive job.
#[derive(Debug, Clone, Copy, PartialEq, Eq, Structural)]
pub enum LogLevel {
    Debug,
    Info,
    Warning,
    Error,
    Critical,
}

impl LogLevel {
    /// The name of the level on the wire.
    pub open spec fn spec_wire_name(self) -> Seq<char> {
        match self {
            LogLevel::Debug => "DEBUG"@,
            LogLevel::Info => "INFO"@,
            LogLevel::Warning => "WARNING"@,
            LogLevel::Error => "ERROR"@,
            LogLevel::Critical => "CRITICAL"@,
        }
    }

    /// Returns the name of the level on the wire.
    pub fn wire_name(&self) -> (r: &'static str)
        ensures
            r@ == self.spec_wire_name(),
    {
        match self {
            LogLevel::Debug => "DEBUG",
            LogLevel::Info => "INFO",
            LogLevel::Warning => "WARNING",
            LogLevel::Error => "ERROR",
            LogLevel::Critical => "CRITICAL",
        }
    }

    /// Reads a level from its name on the wire.
    pub fn from_wire_name(name: &str) -> (r: Option<LogLevel>)
        ensures
            match r {
                Some(l) => l.spec_wire_name() == name@,
                None => forall|l: LogLevel| l.spec_wire_name() != name@,
            },
    {
        if text_eq(name, "DEBUG") {
            Some(LogLevel::Debug)
        } else if text_eq(name, "INFO") {
            Some(LogLevel::Info)
        } else if text_eq(name, "WARNING") {
            Some(LogLevel::Warning)
        } else if text_eq(name, "ERROR") {
            Some(LogLevel::Error)
        } else if text_eq(name, "CRITICAL") {
            Some(LogLevel::Critical)
        } else {
            None
        }
    }
}

/// Each logging level is written as its own upper-case name.
pub proof fn lemma_log_level_text(l: LogLevel)
    ensures
        (l == LogLevel::Debug) <==> l.spec_wire_name() == "DEBUG"@,
        (l == LogLevel::Info) <==> l.spec_wire_name() == "INFO"@,
        (l == LogLevel::Warning) <==> l.spec_wire_name() == "WARNING"@,
        (l == LogLevel::Error) <==> l.spec_wire_name() == "ERROR"@,
        (l == LogLevel::Critical) <==> l.spec_wire_name() == "CRITICAL"@,
{
    reveal_strlit("DEBUG");
    reveal_strlit("INFO");
    reveal_strlit("WARNING");
    reveal_strlit("ERROR");
    reveal_strlit("CRITICAL");
    let w = l.spec_wire_name();
    assert(w[0] == "DEBUG"@[0] ==> w == "DEBUG"@);
    assert(w[0] == "INFO"@[0] ==> w == "INFO"@);
    assert(w[0] == "WARNING"@[0] ==> w == "WARNING"@);
    assert(w[0] == "ERROR"@[0] ==> w == "ERROR"@);
    assert(w[0] == "CRITICAL"@[0] ==> w == "CRITICAL"@);
}

/// Distinct LogLevel values have distinct names, so reading the name of a
/// value gives the value back.
pub proof fn lemma_log_level_names_distinct(a: LogLevel, b: LogLevel)
    requires
        a.spec_wire_name() == b.spec_wire_name(),
    ensures
        a == b,
{
    reveal_strlit("DEBUG");
    reveal_strlit("INFO");
    reveal_strlit("WARNING");
    reveal_strlit("ERROR");
    reveal_strlit("CRITICAL");
    assert("DEBUG"@[0] == 'D');
    assert("INFO"@[0] == 'I');
    assert("WARNING"@[0] == 'W');
    assert("ERROR"@[0] == 'E');
    assert("CRITICAL"@[0] == 'C');
    assert(a.spec_wire_name()[0] == b.spec_wire_name()[0]);
}

/// The members of a job that the library reads when results are asked for.
#[derive(Debug, Clone)]
pub struct JobSummary {
    /// Status of the job.
    pub status: JobStatus,
    /// Code of the reason why the job failed.
    pub reason_code: Option<i64>,
    /// Message of the reason why the job failed.
    pub reason_message: Option<String>,
    /// Suggested solution of the failure.
    pub reason_solution: Option<String>,
}

} // verus!

//! Data models shared by every quantum resource back end.
use vstd::prelude::*;

use crate::error::QrmiError;
use crate::text::{concat3, debug_text, i64_text, signed_decimal, str_debug, text_eq};

verus! {

/// Status of a task running on a quantum resource.
#[derive(Debug, Clone, Copy, PartialEq, Eq, Structural)]
pub enum TaskStatus {
    /// Waiting in the queue.
    Queued,
    /// Running.
    Running,
    /// Finished successfully.
    Completed,
    /// Finished with a failure.
    Failed,
    /// Cancelled before completion.
    Cancelled,
}

impl TaskStatus {
    /// Whether the task has reached a state it does not leave any more.
    pub open spec fn spec_is_final(self) -> bool {
        self == TaskStatus::Completed || self == TaskStatus::Failed || self == TaskStatus::Cancelled
    }
}

/// Task payload.
#[derive(Debug, Clone)]
pub enum Payload {
    /// Payload that contains Qiskit Primitive input.
    QiskitPrimitive { input: String, program_id: String },
    /// Payload for Pasqal Cloud.
    PasqalCloud { sequence: String, job_runs: i32 },
}

/// The `Debug` text of a payload, as `#[derive(Debug)]` writes a variant
/// with named fields.
pub open spec fn spec_payload_debug(p: Payload) -> Seq<char> {
    match p {
        Payload::QiskitPrimitive { input, program_id } => "QiskitPrimitive { input: "@ + str_debug(input@)
            + ", program_id: "@ + str_debug(program_id@) + " }"@,
        Payload::PasqalCloud { sequence, job_runs } => "PasqalCloud { sequence: "@ + str_debug(sequence@)
            + ", job_runs: "@ + signed_decimal(job_runs as int) + " }"@,
    }
}

/// Returns the `Debug` text of a payload.
pub fn payload_debug(p: &Payload) -> (r: String)
    ensures
        r@ == spec_payload_debug(*p),
{
    let mut r = String::new();
    match p {
        Payload::QiskitPrimitive { input, program_id } => {
            r.append("QiskitPrimitive { input: ");
            r.append(debug_text(input.as_str()).as_str());
            r.append(", program_id: ");
            r.append(debug_text(program_id.as_str()).as_str());
            r.append(" }");
        },
        Payload::PasqalCloud { sequence, job_runs } => {
            r.append("PasqalCloud { sequence: ");
            r.append(debug_text(sequence.as_str()).as_str());
            r.append(", job_runs: ");
            r.append(i64_text(*job_runs as i64).as_str());
            r.append(" }");
        },
    }
    r
}

/// The message that refuses a payload: `Payload type is not supported`, then
/// `separator`, then the payload's `Debug` text.
pub open spec fn spec_unsupported_payload(separator: Seq<char>, p: Payload) -> Seq<char> {
    "Payload type is not supported"@ + separator + spec_payload_debug(p)
}

/// Returns the error that refuses `p`, its message joined by `separator`.
pub fn unsupported_payload(separator: &str, p: &Payload) -> (r: QrmiError)
    ensures
        r matches QrmiError::UnsupportedPayload { message } && message@ == spec_unsupported_payload(separator@, *p),
{
    QrmiError::UnsupportedPayload { message: concat3("Payload type is not supported", separator, payload_debug(p).as_str()) }
}

/// A Target that contains the constraints (supported instructions, properties
/// etc.) of a particular quantum device.
#[derive(Debug, Clone)]
pub struct Target {
    /// Serialized data.
    pub value: String,
}

/// The result of a task.
#[derive(Debug, Clone)]
pub struct TaskResult {
    /// Serialized result.
    pub value: String,
}

/// Kinds of quantum resource that a QRMI configuration can name.
#[derive(Debug, Clone, Copy, PartialEq, Eq, Structural)]
pub enum ResourceType {
    /// IBM Qiskit Runtime Direct Access.
    IBMDirectAccess,
    /// IBM Qiskit Runtime Service.
    QiskitRuntimeService,
    /// Pasqal Cloud.
    PasqalCloud,
}

impl ResourceType {
    /// The name of the resource type in `qrmi_config.json`.
    pub open spec fn spec_as_str(self) -> Seq<char> {
        match self {
            ResourceType::IBMDirectAccess => "direct-access"@,
            ResourceType::QiskitRuntimeService => "qiskit-runtime-service"@,
            ResourceType::PasqalCloud => "pasqal-cloud"@,
        }
    }

    /// Returns the name of the resource type used in `qrmi_config.json`.
    pub fn as_str(&self) -> (r: &'static str)
        ensures
            r@ == self.spec_as_str(),
    {
        match self {
            ResourceType::IBMDirectAccess => "direct-access",
            ResourceType::QiskitRuntimeService => "qiskit-runtime-service",
            ResourceType::PasqalCloud => "pasqal-cloud",
        }
    }

    /// Reads a resource type from its `qrmi_config.json` name.
    pub fn from_name(name: &str) -> (r: Option<ResourceType>)
        ensures
            match r {
                Some(t) => t.spec_as_str() == name@,
                None => forall|t: ResourceType| t.spec_as_str() != name@,
            },
    {
        if text_eq(name, "direct-access") {
            Some(ResourceType::IBMDirectAccess)
        } else if text_eq(name, "qiskit-runtime-service") {
            Some(ResourceType::QiskitRuntimeService)
        } else if text_eq(name, "pasqal-cloud") {
            Some(ResourceType::PasqalCloud)
        } else {
            None
        }
    }
}

/// Each resource type is named by its own configuration text.
pub proof fn lemma_resource_type_text(t: ResourceType)
    ensures
        (t == ResourceType::IBMDirectAccess) <==> t.spec_as_str() == "direct-access"@,
        (t == ResourceType::QiskitRuntimeService) <==> t.spec_as_str() == "qiskit-runtime-service"@,
        (t == ResourceType::PasqalCloud) <==> t.spec_as_str() == "pasqal-cloud"@,
{
    reveal_strlit("direct-access");
    reveal_strlit("qiskit-runtime-service");
    reveal_strlit("pasqal-cloud");
    let w = t.spec_as_str();
    assert(w[0] == "direct-access"@[0] ==> w == "direct-access"@);
    assert(w[0] == "qiskit-runtime-service"@[0] ==> w == "qiskit-runtime-service"@);
    assert(w[0] == "pasqal-cloud"@[0] ==> w == "pasqal-cloud"@);
}

/// Distinct ResourceType values have distinct names, so reading the name of a
/// value gives the value back.
pub proof fn lemma_resource_type_names_distinct(a: ResourceType, b: ResourceType)
    requires
        a.spec_as_str() == b.spec_as_str(),
    ensures
        a == b,
{
    reveal_strlit("direct-access");
    reveal_strlit("qiskit-runtime-service");
    reveal_strlit("pasqal-cloud");
    assert("direct-access"@[0] == 'd');
    assert("qiskit-runtime-service"@[0] == 'q');
    assert("pasqal-cloud"@[0] == 'p');
    assert(a.spec_as_str()[0] == b.spec_as_str()[0]);
}

/// The name of the per-resource environment variable `var` of resource
/// `resource_id`: `<resource_id>_<var>`.
pub open spec fn spec_resource_env_key(resource_id: Seq<char>, var: Seq<char>) -> Seq<char> {
    resource_id + "_"@ + var
}

/// Returns the name of the environment variable `var` of resource
/// `resource_id`, e.g. `ibm_torino_QRMI_IBM_QRS_ENDPOINT`.
pub fn resource_env_key(resource_id: &str, var: &str) -> (r: String)
    ensures
        r@ == spec_resource_env_key(resource_id@, var@),
{
    concat3(resource_id, "_", var)
}

/// The JSON text `null`.
pub open spec fn json_null() -> Seq<char> {
    "null"@
}

/// The target document: a JSON object whose `configuration` and `properties`
/// members hold the given JSON texts, or `null` where one is missing.
pub open spec fn spec_target_document(
    configuration: Option<Seq<char>>,
    properties: Option<Seq<char>>,
) -> Seq<char> {
    "{\"configuration\":"@ + configuration.unwrap_or(json_null()) + ",\"properties\":"@
        + properties.unwrap_or(json_null()) + "}"@
}

/// Builds the target from the compact JSON texts of a backend configuration
/// and of backend properties; a part that could not be fetched is `null`.
pub fn target_from_parts(configuration: Option<String>, properties: Option<String>) -> (r: Target)
    ensures
        r.value@ == spec_target_document(
            match configuration { Some(c) => Some(c@), None => None },
            match properties { Some(p) => Some(p@), None => None },
        ),
{
    let mut value = String::from_str("{\"configuration\":");
    match configuration {
        Some(c) => value.append(c.as_str()),
        None => value.append("null"),
    }
    value.append(",\"properties\":");
    match properties {
        Some(p) => value.append(p.as_str()),
        None => value.append("null"),
    }
    value.append("}");
    Target { value }
}

} // verus!

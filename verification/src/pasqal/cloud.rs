//! QRMI for Pasqal Cloud: which device may receive jobs, how a payload becomes
//! a batch, and how batch states read as task states.
use vstd::prelude::*;

use crate::cext::ResourceMetadata;
use crate::error::QrmiError;
use crate::models::{
    resource_env_key, spec_resource_env_key, spec_unsupported_payload, unsupported_payload, Payload, Target,
    TaskStatus,
};
use crate::pasqal::client::{Batch, BatchStatus, Client, ClientBuilder, DeviceType};
use crate::text::text_eq;

verus! {

/// The environment variable holding the project of resource `backend_name`.
pub open spec fn spec_project_id_env_key(backend_name: Seq<char>) -> Seq<char> {
    spec_resource_env_key(backend_name, "QRMI_PASQAL_CLOUD_PROJECT_ID"@)
}

/// The environment variable holding the token of resource `backend_name`.
pub open spec fn spec_auth_token_env_key(backend_name: Seq<char>) -> Seq<char> {
    spec_resource_env_key(backend_name, "QRMI_PASQAL_CLOUD_AUTH_TOKEN"@)
}

/// Returns the name of the environment variable holding the Pasqal Cloud
/// project of resource `backend_name`.
pub fn project_id_env_key(backend_name: &str) -> (r: String)
    ensures
        r@ == spec_project_id_env_key(backend_name@),
{
    resource_env_key(backend_name, "QRMI_PASQAL_CLOUD_PROJECT_ID")
}

/// Returns the name of the environment variable holding the Pasqal Cloud
/// token of resource `backend_name`.
pub fn auth_token_env_key(backend_name: &str) -> (r: String)
    ensures
        r@ == spec_auth_token_env_key(backend_name@),
{
    resource_env_key(backend_name, "QRMI_PASQAL_CLOUD_AUTH_TOKEN")
}

/// QRMI implementation for Pasqal Cloud.
#[derive(Debug, Clone)]
pub struct PasqalCloud {
    /// The address and project of the API.
    pub api_client: Client,
    /// The device this resource stands for.
    pub backend_name: String,
}

/// Maps the state of a batch to the state of a task.
pub open spec fn spec_task_status(status: BatchStatus) -> TaskStatus {
    match status {
        BatchStatus::Pending => TaskStatus::Queued,
        BatchStatus::Running => TaskStatus::Running,
        BatchStatus::Done => TaskStatus::Completed,
        BatchStatus::Canceled => TaskStatus::Cancelled,
        BatchStatus::TimedOut => TaskStatus::Failed,
        BatchStatus::Error => TaskStatus::Failed,
        BatchStatus::Paused => TaskStatus::Queued,
    }
}

impl PasqalCloud {
    /// Constructs a QRMI for Pasqal Cloud device `backend_name`, with the
    /// project and token read from the resource's environment variables.
    pub fn new(backend_name: &str, project_id: String, auth_token: String) -> (r: (Self, ClientBuilder))
        ensures
            r.0.backend_name@ == backend_name@,
            r.1.base_url@ == crate::pasqal::client::spec_default_base_url(),
            r.1.token == auth_token,
            r.1.project_id == project_id,
            r.0.api_client.base_url == r.1.base_url,
            r.0.api_client.project_id == r.1.project_id,
    {
        let builder = ClientBuilder::new(auth_token, project_id);
        let api_client = builder.build();
        (PasqalCloud { api_client, backend_name: String::from_str(backend_name) }, builder)
    }

    /// Whether this resource names the device that receives jobs.
    pub open spec fn spec_is_job_device(self) -> bool {
        self.backend_name@ == DeviceType::Fresnel.spec_name()
    }

    /// Returns true when this resource names the Fresnel device, the only
    /// device that can receive jobs.
    pub fn is_job_device(&self) -> (r: bool)
        ensures
            r == self.spec_is_job_device(),
    {
        text_eq(self.backend_name.as_str(), DeviceType::Fresnel.name())
    }

    /// The message for a resource naming another device than Fresnel.
    pub open spec fn spec_invalid_device_message(self) -> Seq<char> {
        "Device "@ + self.backend_name@ + " is invalid. Only "@ + DeviceType::Fresnel.spec_name()
            + " device can receive jobs."@
    }

    /// Returns the message for a resource naming another device than Fresnel.
    pub fn invalid_device_message(&self) -> (r: String)
        ensures
            r@ == self.spec_invalid_device_message(),
    {
        let mut r = String::from_str("Device ");
        r.append(self.backend_name.as_str());
        r.append(" is invalid. Only ");
        r.append(DeviceType::Fresnel.name());
        r.append(" device can receive jobs.");
        r
    }

    /// Whether a device whose status is `status` is accessible: it is `UP`.
    pub fn device_is_up(status: &str) -> (r: bool)
        ensures
            r == (status@ == "UP"@),
    {
        text_eq(status, "UP")
    }

    /// Returns the batch that starts a task for `payload`: a Pasqal payload
    /// becomes one job of `job_runs` runs on the free emulator; any other
    /// payload is refused.
    pub fn task_start_batch(&self, payload: Payload) -> (r: Result<Batch, QrmiError>)
        ensures
            match payload {
                Payload::PasqalCloud { sequence, job_runs } => (r matches Ok(b) && b.sequence_builder
                    == sequence && b.jobs@.len() == 1 && b.jobs@[0].runs == job_runs && b.device_type
                    == DeviceType::EmuFree && b.project_id == self.api_client.project_id),
                Payload::QiskitPrimitive { .. } => r matches Err(QrmiError::UnsupportedPayload { message })
                    && message@ == spec_unsupported_payload(". "@, payload),
            },
    {
        match payload {
            Payload::PasqalCloud { sequence, job_runs } => Ok(
                self.api_client.create_batch_body(sequence, job_runs, DeviceType::EmuFree),
            ),
            Payload::QiskitPrimitive { .. } => Err(unsupported_payload(". ", &payload)),
        }
    }

    /// Maps the state of a batch to the state of the task.
    pub fn task_status(status: BatchStatus) -> (r: TaskStatus)
        ensures
            r == spec_task_status(status),
    {
        match status {
            BatchStatus::Pending => TaskStatus::Queued,
            BatchStatus::Running => TaskStatus::Running,
            BatchStatus::Done => TaskStatus::Completed,
            BatchStatus::Canceled => TaskStatus::Cancelled,
            BatchStatus::TimedOut => TaskStatus::Failed,
            BatchStatus::Error => TaskStatus::Failed,
            BatchStatus::Paused => TaskStatus::Queued,
        }
    }

    /// The target of the device is its specification text.
    pub fn target_from_specs(specs: String) -> (r: Target)
        ensures
            r.value == specs,
    {
        Target { value: specs }
    }

    /// Pasqal Cloud reports no metadata.
    pub fn metadata(&self) -> (r: ResourceMetadata)
        ensures
            r@ == Map::<Seq<char>, Seq<char>>::empty(),
    {
        ResourceMetadata::new()
    }
}

/// Each device is addressed by its own upper-case name.
pub proof fn lemma_device_type_text(d: DeviceType)
    ensures
        (d == DeviceType::Fresnel) <==> d.spec_name() == "FRESNEL"@,
        (d == DeviceType::EmuFree) <==> d.spec_name() == "EMU_FREE"@,
{
    reveal_strlit("FRESNEL");
    reveal_strlit("EMU_FREE");
    let w = d.spec_name();
    assert(w[0] == "FRESNEL"@[0] ==> w == "FRESNEL"@);
    assert(w[0] == "EMU_FREE"@[0] ==> w == "EMU_FREE"@);
}

/// Only a resource named `FRESNEL` receives jobs.
pub proof fn lemma_only_fresnel_receives_jobs(c: PasqalCloud)
    ensures
        c.spec_is_job_device() <==> c.backend_name@ == "FRESNEL"@,
{
    lemma_device_type_text(DeviceType::Fresnel);
}

/// A batch reads as the task status that its API text names: `DONE` as
/// completed, `ERROR` and `TIMEDOUT` as failed, `CANCELED` as cancelled,
/// `RUNNING` as running, `PENDING` and `PAUSED` as queued.
pub proof fn lemma_batch_status_text(status: BatchStatus)
    ensures
        (spec_task_status(status) == TaskStatus::Completed) <==> status.spec_wire_name() == "DONE"@,
        (spec_task_status(status) == TaskStatus::Failed) <==> (status.spec_wire_name() == "ERROR"@
            || status.spec_wire_name() == "TIMEDOUT"@),
        (spec_task_status(status) == TaskStatus::Cancelled) <==> status.spec_wire_name() == "CANCELED"@,
        (spec_task_status(status) == TaskStatus::Running) <==> status.spec_wire_name() == "RUNNING"@,
        (spec_task_status(status) == TaskStatus::Queued) <==> (status.spec_wire_name() == "PENDING"@
            || status.spec_wire_name() == "PAUSED"@),
{
    reveal_strlit("DONE");
    reveal_strlit("ERROR");
    reveal_strlit("TIMEDOUT");
    reveal_strlit("CANCELED");
    reveal_strlit("RUNNING");
    reveal_strlit("PENDING");
    reveal_strlit("PAUSED");
    let w = status.spec_wire_name();
    assert(w[0] == "DONE"@[0] ==> w == "DONE"@);
    assert(w[0] == "TIMEDOUT"@[0] ==> w == "TIMEDOUT"@);
    assert(w[0] == "CANCELED"@[0] ==> w == "CANCELED"@);
    assert(w[0] == "RUNNING"@[0] ==> w == "RUNNING"@);
    assert("PENDING"@[1] != "PAUSED"@[1]);
    assert("ERROR"@[0] != "PENDING"@[0]);
    assert(w == "PENDING"@ ==> w[1] == "PENDING"@[1]);
    assert(w == "PAUSED"@ ==> w[1] == "PAUSED"@[1]);
}

/// A task on Pasqal Cloud is final exactly when its batch is done, cancelled,
/// timed out or in error; paused and pending batches read as queued.
pub proof fn lemma_final_batches(status: BatchStatus)
    ensures
        spec_task_status(status).spec_is_final() <==> (status == BatchStatus::Done || status
            == BatchStatus::Canceled || status == BatchStatus::TimedOut || status == BatchStatus::Error),
        (status == BatchStatus::Pending || status == BatchStatus::Paused) ==> spec_task_status(status)
            == TaskStatus::Queued,
{
}

} // verus!

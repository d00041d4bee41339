use qrmi::retry::is_transient_status;
use qrmi::cext::{ResourceMetadata, ReturnCode};
use qrmi::error::QrmiError;
use qrmi::models::{resource_env_key, target_from_parts, ResourceType};
use qrmi::qiskit_runtime_client::models::{
    CreateJobRequestOneOf1, JobMetrics, JobResponseRemoteStorage, JobResponseStatus, JobsResponse,
    LogLevel, RegionType, RemoteStorageJobParams, RemoteStorageResults, Type, VersionResponse,
};

#[test]
fn resource_type_names() {
    assert_eq!(ResourceType::IBMDirectAccess.as_str(), "direct-access");
    assert_eq!(ResourceType::QiskitRuntimeService.as_str(), "qiskit-runtime-service");
    assert_eq!(ResourceType::PasqalCloud.as_str(), "pasqal-cloud");
    for t in [ResourceType::IBMDirectAccess, ResourceType::QiskitRuntimeService, ResourceType::PasqalCloud] {
        assert_eq!(ResourceType::from_name(t.as_str()), Some(t));
    }
    assert_eq!(ResourceType::from_name("direct_access"), None);
}

#[test]
fn resource_env_key_joins_with_underscore() {
    assert_eq!(resource_env_key("ibm_torino", "QRMI_IBM_QRS_ENDPOINT"), "ibm_torino_QRMI_IBM_QRS_ENDPOINT");
    assert_eq!(resource_env_key("", "QRMI_IBM_QRS_ENDPOINT"), "_QRMI_IBM_QRS_ENDPOINT");
}

#[test]
fn target_document_has_both_members() {
    let t = target_from_parts(Some("{\"n_qubits\":5}".to_string()), Some("[]".to_string()));
    assert_eq!(t.value, "{\"configuration\":{\"n_qubits\":5},\"properties\":[]}");
    let t = target_from_parts(None, None);
    assert_eq!(t.value, "{\"configuration\":null,\"properties\":null}");
    let parsed: serde_json::Value = serde_json::from_str(&target_from_parts(Some("1".into()), None).value).unwrap();
    assert_eq!(parsed["configuration"], serde_json::Value::from(1));
    assert!(parsed["properties"].is_null());
}

#[test]
fn metadata_insert_value_keys() {
    let mut m = ResourceMetadata::new();
    assert_eq!(m.value("backend_name"), None);
    assert!(m.keys().is_empty());
    m.insert("backend_name".to_string(), "ibm_torino".to_string());
    m.insert("session_id".to_string(), "s1".to_string());
    m.insert("backend_name".to_string(), "ibm_kingston".to_string());
    assert_eq!(m.value("backend_name"), Some("ibm_kingston".to_string()));
    assert_eq!(m.value("session_id"), Some("s1".to_string()));
    assert_eq!(m.value("other"), None);
    let mut keys = m.keys();
    keys.sort();
    assert_eq!(keys, vec!["backend_name".to_string(), "session_id".to_string()]);
}

#[test]
fn return_codes() {
    assert_eq!(ReturnCode::Success.code(), 0);
    assert_eq!(ReturnCode::Error.code(), 100);
    assert_eq!(ReturnCode::NullPointerError.code(), 101);
}

#[test]
fn error_messages() {
    assert_eq!(
        QrmiError::EnvVarNotSet { name: "QRMI_RESOURCE_ID".into() }.message(),
        "QRMI_RESOURCE_ID is not set: environment variable not found"
    );
    assert_eq!(
        QrmiError::InvalidTimeout { detail: "invalid digit found in string".into() }.message(),
        "Failed to parse timeout value: invalid digit found in string"
    );
    assert_eq!(
        QrmiError::UnsupportedPayload { message: "Payload type is not supported. x".into() }.message(),
        "Payload type is not supported. x"
    );
    assert_eq!(
        QrmiError::UnknownProgramId { program_id: "foo".into() }.message(),
        "Unknown program ID is specified. foo"
    );
    assert_eq!(QrmiError::InvalidSessionMode { mode: "shared".into() }.message(), "Invalid session mode: shared");
    assert_eq!(QrmiError::NoResultsFound.message(), "No results found");
    assert_eq!(
        QrmiError::HttpStatus { status: "404 Not Found".into(), body: "{}".into() }.message(),
        "Status: 404 Not Found, Fail {}"
    );
    assert_eq!(
        QrmiError::CancelSessionFailed { status: "500".into() }.message(),
        "Failed to cancel session: 500"
    );
    assert_eq!(QrmiError::SessionNotCreated.message(), "No session created: no content returned");
}

#[test]
fn qiskit_runtime_models() {
    assert_eq!(LogLevel::default(), LogLevel::Critical);
    assert_eq!(Type::default(), Type::IbmcloudCos);
    assert_eq!(RegionType::default(), RegionType::Regional);
    for l in [LogLevel::Critical, LogLevel::Error, LogLevel::Warning, LogLevel::Info, LogLevel::Debug] {
        assert_eq!(LogLevel::from_wire_name(l.wire_name()), Some(l));
    }
    assert_eq!(LogLevel::from_wire_name("DEBUG"), None);
    for r in [RegionType::Regional, RegionType::CrossRegion, RegionType::SingleSite] {
        assert_eq!(RegionType::from_wire_name(r.wire_name()), Some(r));
    }
    assert_eq!(RegionType::CrossRegion.wire_name(), "cross-region");
    assert_eq!(Type::from_wire_name("ibmcloud_cos"), Some(Type::IbmcloudCos));
    assert_eq!(
        JobResponseStatus::from_wire_name("Cancelled - Ran too long"),
        Some(JobResponseStatus::CancelledRanTooLong)
    );
    assert_eq!(JobResponseStatus::CancelledRanTooLong.debug_name(), "CancelledRanTooLong");
    assert_eq!(JobResponseStatus::from_wire_name("running"), None);

    let storage = JobResponseRemoteStorage::new(
        "us-east".into(),
        RegionType::Regional,
        "crn:bucket".into(),
        "obj".into(),
        RemoteStorageJobParams { object_name: "params".into() },
        RemoteStorageResults { object_name: "results".into() },
    );
    assert!(storage.storage_type.is_none() && storage.logs.is_none() && storage.transpiled_circuits.is_none());
    assert_eq!(storage.job_params.object_name, "params");
    let req = CreateJobRequestOneOf1::new("sampler".into(), "ibm_torino".into(), storage);
    assert_eq!(req.program_id, "sampler");
    assert_eq!(req.backend, "ibm_torino");
    assert!(req.runtime.is_none() && req.tags.is_none() && req.log_level.is_none());
    assert!(req.cost.is_none() && req.session_id.is_none());
    assert_eq!(req.remote_storage.bucket_crn, "crn:bucket");

    let metrics = JobMetrics::new();
    assert!(metrics.executions.is_none() && metrics.qiskit_version.is_none() && metrics.position_in_queue.is_none());
    assert!(metrics.timestamps.is_none() && metrics.bss.is_none());
    let jobs = JobsResponse::new(10, 50);
    assert_eq!((jobs.offset, jobs.limit), (10, 50));
    assert!(jobs.jobs.is_none() && jobs.count.is_none());
    let v = VersionResponse::new(vec!["1.0.0".into()]);
    assert_eq!(v.versions, vec!["1.0.0".to_string()]);
}

#[test]
fn transient_statuses_are_retried() {
    assert!(is_transient_status(500) && is_transient_status(503) && is_transient_status(599));
    assert!(is_transient_status(408) && is_transient_status(429));
    assert!(!is_transient_status(200) && !is_transient_status(404) && !is_transient_status(600));
}

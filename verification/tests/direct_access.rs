use qrmi::direct_access_client::client::{
    input_key, job_param, logs_available, logs_key, primitive_job_id, result_available, results_key,
    Client, SessionCall, SessionPayloadValue,
};
use qrmi::direct_access_client::models::{
    default_false, default_n_registers, empty_string_array, BackendStatus, JobStatus, JobSummary, LogLevel,
    ProgramId,
};
use qrmi::direct_access_client::s3::ObjectListing;
use qrmi::error::QrmiError;
use qrmi::ibm::direct_access::{
    acquire, backend_accessible, cancel_needed, client_settings, decode_result, metadata, result_key,
    result_store, task_start_plan, task_status, DirectAccessEnvironment, RetryPolicy,
};
use qrmi::models::{Payload, TaskStatus};

fn empty_env() -> DirectAccessEnvironment {
    DirectAccessEnvironment {
        endpoint: None,
        aws_access_key_id: None,
        aws_secret_access_key: None,
        s3_endpoint: None,
        s3_bucket: None,
        s3_region: None,
        iam_apikey: None,
        service_crn: None,
        iam_endpoint: None,
    }
}

#[test]
fn configuration_defaults() {
    assert_eq!(default_n_registers(), 1);
    assert!(!default_false());
    assert!(empty_string_array().is_empty());
}

#[test]
fn settings_from_environment() {
    let s = client_settings(empty_env());
    assert_eq!(s.endpoint, "http://localhost:8080");
    assert_eq!(s.timeout_secs, 60);
    assert_eq!(s.retry, RetryPolicy { min_secs: 1, max_secs: 5, base: 2, max_retries: 5 });
    assert!(s.s3.is_none() && s.auth.is_none());

    let mut e = empty_env();
    e.endpoint = Some("http://da:8290".into());
    e.aws_access_key_id = Some("ak".into());
    e.aws_secret_access_key = Some("sk".into());
    e.s3_endpoint = Some("http://s3:9000".into());
    e.s3_bucket = Some("bucket".into());
    e.iam_apikey = Some("key".into());
    e.service_crn = Some("crn".into());
    e.iam_endpoint = Some("http://iam".into());
    let s = client_settings(e.clone());
    assert_eq!(s.endpoint, "http://da:8290");
    assert!(s.s3.is_none(), "the region is missing");
    let auth = s.auth.unwrap();
    assert_eq!((auth.apikey.as_str(), auth.service_crn.as_str(), auth.iam_endpoint_url.as_str()), ("key", "crn", "http://iam"));
    e.s3_region = Some("us-east-1".into());
    let s3 = client_settings(e).s3.unwrap();
    assert_eq!(s3.bucket, "bucket");
    assert_eq!(s3.region, "us-east-1");
}

fn primitive() -> Payload {
    Payload::QiskitPrimitive { input: "{\"pubs\":[]}".into(), program_id: "sampler".into() }
}

#[test]
fn task_start_checks_in_order() {
    let e = task_start_plan(primitive(), None, None).unwrap_err();
    assert_eq!(e.message(), "QRMI_RESOURCE_ID is not set: environment variable not found");
    let e = task_start_plan(primitive(), Some("ibm_torino".into()), None).unwrap_err();
    assert_eq!(e.message(), "QRMI_IBM_DA_TIMEOUT_SECONDS is not set: environment variable not found");
    let e = task_start_plan(primitive(), Some("ibm_torino".into()), Some("1h".into())).unwrap_err();
    assert_eq!(e.message(), "Failed to parse timeout value: invalid digit found in string");
    let e = task_start_plan(Payload::PasqalCloud { sequence: "s\"q".into(), job_runs: -3 }, Some("b".into()), Some("60".into()));
    assert_eq!(
        e.unwrap_err().message(),
        "Payload type is not supported. PasqalCloud { sequence: \"s\\\"q\", job_runs: -3 }"
    );
    let e = task_start_plan(
        Payload::QiskitPrimitive { input: "nope".into(), program_id: "sampler".into() },
        Some("b".into()),
        Some("60".into()),
    );
    assert!(matches!(e, Err(QrmiError::InvalidJson { .. })));
    let e = task_start_plan(
        Payload::QiskitPrimitive { input: "{}".into(), program_id: "transpiler".into() },
        Some("b".into()),
        Some("60".into()),
    )
    .unwrap_err();
    assert_eq!(e.message(), "Unknown program ID is specified. transpiler");
    let plan = task_start_plan(primitive(), Some("ibm_torino".into()), Some("3600".into())).unwrap();
    assert_eq!(plan.backend, "ibm_torino");
    assert_eq!(plan.program_id, ProgramId::Sampler);
    assert_eq!(plan.timeout_secs, 3600);
    assert_eq!(plan.log_level, LogLevel::Debug);
    assert_eq!(plan.job, serde_json::from_str::<serde_json::Value>("{\"pubs\":[]}").unwrap());
}

#[test]
fn direct_access_job_states() {
    assert_eq!(task_status(JobStatus::Running), TaskStatus::Running);
    assert_eq!(task_status(JobStatus::Completed), TaskStatus::Completed);
    assert_eq!(task_status(JobStatus::Cancelled), TaskStatus::Cancelled);
    assert_eq!(task_status(JobStatus::Failed), TaskStatus::Failed);
    assert!(cancel_needed(JobStatus::Running));
    assert!(!cancel_needed(JobStatus::Completed));
    assert!(backend_accessible(BackendStatus::Online));
    assert!(!backend_accessible(BackendStatus::Paused));
    for s in [JobStatus::Running, JobStatus::Completed, JobStatus::Cancelled, JobStatus::Failed] {
        assert_eq!(JobStatus::from_wire_name(s.wire_name()), Some(s));
    }
    assert_eq!(BackendStatus::from_wire_name("online"), Some(BackendStatus::Online));
    assert_eq!(BackendStatus::from_wire_name("Online"), None);
    assert_eq!(ProgramId::from_wire_name("estimator"), Some(ProgramId::Estimator));
    assert_eq!(LogLevel::from_wire_name(LogLevel::Warning.wire_name()), Some(LogLevel::Warning));
}

#[test]
fn result_location() {
    let e = result_store(None, None, None, None, None).unwrap_err();
    assert_eq!(e.message(), "QRMI_IBM_DA_S3_BUCKET is not set: environment variable not found");
    let e = result_store(Some("b".into()), Some("e".into()), None, Some("s".into()), Some("r".into())).unwrap_err();
    assert_eq!(e.message(), "QRMI_IBM_DA_AWS_ACCESS_KEY_ID is not set: environment variable not found");
    let s = result_store(Some("b".into()), Some("e".into()), Some("a".into()), Some("s".into()), Some("r".into())).unwrap();
    assert_eq!((s.bucket.as_str(), s.endpoint.as_str(), s.region.as_str()), ("b", "e", "r"));

    let id = "77b65b44-07bc-4557-80e2-7f73a6be8ea4";
    let done = JobSummary { status: JobStatus::Completed, reason_code: None, reason_message: None, reason_solution: None };
    assert_eq!(result_key(id, done).unwrap(), "results_77b65b44-07bc-4557-80e2-7f73a6be8ea4.json");
    let failed = JobSummary {
        status: JobStatus::Failed,
        reason_code: Some(1517),
        reason_message: Some("Reason why this job was failed.".into()),
        reason_solution: None,
    };
    assert_eq!(
        result_key("d7f0", failed).unwrap_err().message(),
        "Unable to retrieve result for task d7f0. Task failed. code: 1517, message: Reason why this job was failed., solution: "
    );
    let cancelled = JobSummary { status: JobStatus::Cancelled, reason_code: None, reason_message: None, reason_solution: None };
    assert_eq!(result_key("j", cancelled).unwrap_err().message(), "Unable to retrieve result for task j. Task was cancelled.");
    let running = JobSummary { status: JobStatus::Running, reason_code: None, reason_message: None, reason_solution: None };
    assert_eq!(result_key("j", running).unwrap_err().message(), "Unable to retrieve result for task j. Task is running.");

    assert_eq!(decode_result(b"{\"ok\":true}".to_vec()).unwrap().value, "{\"ok\":true}");
    assert_eq!(
        decode_result(vec![0xc3, 0x28]).unwrap_err().message(),
        "invalid utf-8 sequence of 1 bytes from index 0"
    );
}

#[test]
fn metadata_and_acquire() {
    assert_eq!(metadata(Some("ibm_torino".into())).value("backend_name"), Some("ibm_torino".to_string()));
    assert!(metadata(None).keys().is_empty());
    let t = acquire();
    assert_eq!(t.len(), 36);
    assert_ne!(t, acquire());
}

#[test]
fn object_keys() {
    assert_eq!(input_key("j1"), "input_j1.json");
    assert_eq!(results_key("j1"), "results_j1.json");
    assert_eq!(logs_key("j1"), "logs_j1.json");
}

#[test]
fn primitive_job_identifiers() {
    assert!(matches!(primitive_job_id(false, Some("x".into())), Err(QrmiError::S3NotConfigured)));
    assert_eq!(primitive_job_id(true, Some("x".into())).unwrap(), "x");
    assert_eq!(primitive_job_id(true, None).unwrap().len(), 36);
}

#[test]
fn job_parameters() {
    let p = job_param("id1".into(), "ibm_torino", ProgramId::Estimator, LogLevel::Info, 86400, "u-in".into(), "u-res".into(), "u-log".into());
    assert_eq!(p.id, "id1");
    assert_eq!(p.backend, "ibm_torino");
    assert_eq!(p.program_id, "estimator");
    assert_eq!(p.log_level, "INFO");
    assert_eq!(p.timeout_secs, 86400);
    assert_eq!(p.storage.input.presigned_url, "u-in");
    assert_eq!(p.storage.results.presigned_url, "u-res");
    assert_eq!(p.storage.logs.presigned_url, "u-log");
    assert_eq!(p.storage.logs.storage_type, "s3_compatible");
}

#[test]
fn result_and_log_availability() {
    assert!(matches!(result_available(JobStatus::Failed), Err(QrmiError::ResultNotSucceeded)));
    assert!(matches!(result_available(JobStatus::Cancelled), Err(QrmiError::ResultNotSucceeded)));
    assert!(matches!(result_available(JobStatus::Running), Err(QrmiError::ResultNotCompleted)));
    assert!(result_available(JobStatus::Completed).is_ok());
    assert!(matches!(logs_available(JobStatus::Running), Err(QrmiError::LogsNotFinal)));
    assert!(logs_available(JobStatus::Failed).is_ok());
}

#[test]
fn session_requests() {
    let c = Client { base_url: "http://da".into() };
    assert_eq!(c.backend_properties_url("ibm_torino"), "http://da/v1/backends/ibm_torino/properties");
    assert_eq!(c.sessions_url(), "http://da/v1/sessions");
    assert_eq!(c.session_close_url("s1"), "http://da/v1/sessions/s1/close");
    assert_eq!(c.session_url("s1"), "http://da/v1/sessions/s1");

    let p = Client::create_session_payload(Some("batch"), Some("ibm_torino"), None, Some(3600), Some("ibm_quantum"));
    assert_eq!(
        p,
        vec![
            ("mode".to_string(), SessionPayloadValue::Text("batch".into())),
            ("backend".to_string(), SessionPayloadValue::Text("ibm_torino".into())),
            ("max_session_ttl".to_string(), SessionPayloadValue::Number(3600)),
        ]
    );
    let p = Client::create_session_payload(None, None, Some("inst"), Some(60), Some("ibm_cloud"));
    assert_eq!(
        p,
        vec![
            ("instance".to_string(), SessionPayloadValue::Text("inst".into())),
            ("max_ttl".to_string(), SessionPayloadValue::Number(60)),
        ]
    );
    assert!(Client::create_session_payload(None, None, None, None, Some("ibm_quantum")).is_empty());

    assert!(matches!(Client::check_session_created(204), Err(QrmiError::SessionNotCreated)));
    assert!(Client::check_session_created(200).is_ok());
    assert!(Client::check_session_call(SessionCall::Close, true, "200 OK".into()).is_ok());
    assert_eq!(
        Client::check_session_call(SessionCall::Details, false, "404 Not Found".into()).unwrap_err().message(),
        "Failed to get session details: 404 Not Found"
    );
}

#[test]
fn paginated_listing() {
    let mut l = ObjectListing::new();
    l.add_page(vec![Some("a".into()), None], Some(true), Some("t1".into()));
    assert!(!l.done);
    assert_eq!(l.continuation_token, Some("t1".to_string()));
    l.add_page(vec![Some("c".into())], Some(false), Some("t2".into()));
    assert!(l.done);
    assert_eq!(l.keys, vec!["a".to_string(), String::new(), "c".to_string()]);
    let mut l = ObjectListing::new();
    l.add_page(vec![], None, None);
    assert!(l.done);
}

#[test]
fn close_session_request_stops_accepting_jobs() {
    let c = Client { base_url: "http://da:8080".to_string() };
    let (url, body) = c.close_session_request("s-1");
    assert_eq!(url, "http://da:8080/v1/sessions/s-1");
    assert_eq!(body, vec![("accepting_jobs".to_string(), false)]);
}

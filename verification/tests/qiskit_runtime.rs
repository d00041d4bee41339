use qrmi::error::QrmiError;
use qrmi::ibm::qiskit_runtime_service::{
    AcquireAction, AcquireEvent, IBMQiskitRuntimeService, QrsEnvironment,
};
use qrmi::models::{Payload, TaskStatus};
use qrmi::qiskit_runtime_client::auth::{
    apply_token, check_token, token_from_success, token_needs_refresh, token_refusal, token_request,
    trunc_div_i64, AuthError, TokenResponse,
};
use qrmi::qiskit_runtime_client::models::{JobResponseStatus, SessionMode};

fn env() -> QrsEnvironment {
    QrsEnvironment {
        endpoint: "https://quantum.cloud.ibm.com/api/v1".into(),
        iam_endpoint: "https://iam.cloud.ibm.com".into(),
        api_key: "key".into(),
        service_crn: "crn:v1:x".into(),
        session_mode: None,
        session_max_ttl: None,
        timeout_seconds: None,
        session_id: None,
    }
}

#[test]
fn new_uses_defaults() {
    let s = IBMQiskitRuntimeService::new("ibm_torino", env());
    assert_eq!(s.backend_name, "ibm_torino");
    assert_eq!(s.session_mode, "dedicated");
    assert_eq!(s.session_max_ttl, 28800);
    assert_eq!(s.timeout_secs, None);
    assert_eq!(s.crn, Some("crn:v1:x".to_string()));
    assert_eq!(s.bearer_access_token, None);
    assert_eq!((s.token_expiration, s.token_lifetime), (0, 0));
}

#[test]
fn new_reads_optional_settings() {
    let mut e = env();
    e.session_mode = Some("Batch".into());
    e.session_max_ttl = Some("3600".into());
    e.timeout_seconds = Some("600".into());
    e.session_id = Some("sess".into());
    let s = IBMQiskitRuntimeService::new("ibm_torino", e);
    assert_eq!(s.session_mode, "Batch");
    assert_eq!(s.session_max_ttl, 3600);
    assert_eq!(s.timeout_secs, Some(600));
    assert_eq!(s.session_id, Some("sess".to_string()));
    let mut e = env();
    e.session_max_ttl = Some("forever".into());
    e.timeout_seconds = Some("-5".into());
    let s = IBMQiskitRuntimeService::new("ibm_torino", e);
    assert_eq!(s.session_max_ttl, 28800);
    assert_eq!(s.timeout_secs, None);
}

#[test]
fn token_refresh_rule() {
    assert_eq!(trunc_div_i64(-15, 10), -1);
    assert_eq!(trunc_div_i64(15, 10), 1);
    // no token yet
    assert!(token_needs_refresh(1_700_000_000, 0, 0));
    // fresh hour-long token
    assert!(!token_needs_refresh(1_000, 4_600, 3_600));
    // under 360 seconds left
    assert!(token_needs_refresh(1_000, 1_359, 3_600));
    assert!(!token_needs_refresh(1_000, 1_360, 3_600));
    // under a tenth of a long lifetime left
    assert!(token_needs_refresh(0, 9_999, 100_000));
    assert!(!token_needs_refresh(0, 10_000, 100_000));
    // 400 seconds left of 4005: below 10% (400.5)
    assert!(token_needs_refresh(0, 400, 4_005));
    assert!(!token_needs_refresh(0, 401, 4_005));
}

#[test]
fn token_request_shape() {
    let r = token_request("key", "https://iam.cloud.ibm.com");
    assert_eq!(r.url, "https://iam.cloud.ibm.com/identity/token");
    assert_eq!(
        r.form,
        vec![
            ("grant_type".to_string(), "urn:ibm:params:oauth:grant-type:apikey".to_string()),
            ("apikey".to_string(), "key".to_string()),
        ]
    );
    assert!(check_token("key", "https://iam", 1_000, 4_600, 3_600).is_none());
    assert_eq!(check_token("key", "https://iam", 1_000, 1_000, 3_600).unwrap().url, "https://iam/identity/token");
}

#[test]
fn token_answers() {
    let ok = token_from_success(TokenResponse {
        access_token: Some("tok".into()),
        expiration: Some(1616750582),
        expires_in: Some(3600),
    });
    assert_eq!(ok.unwrap(), ("tok".to_string(), 1616750582, 3600));
    let missing = token_from_success(TokenResponse { access_token: Some("tok".into()), expiration: None, expires_in: Some(3600) });
    assert!(matches!(missing, Err(AuthError::AuthTokenError)));
    match token_refusal("400 Bad Request", "{}", Some(("BXNIM0415E".into(), "Provided API key could not be found".into()))) {
        AuthError::InvalidResponse(m) => assert_eq!(m, "HTTP 400 Bad Request: BXNIM0415E: Provided API key could not be found"),
        _ => panic!("unexpected error kind"),
    }
    match token_refusal("500 Internal Server Error", "oops", None) {
        AuthError::InvalidResponse(m) => assert_eq!(m, "HTTP 500 Internal Server Error: oops"),
        _ => panic!("unexpected error kind"),
    }
}

#[test]
fn store_token_after_renewal() {
    let mut s = IBMQiskitRuntimeService::new("ibm_torino", env());
    s.store_token(("tok".into(), 5000, 3600));
    assert_eq!(s.bearer_access_token, Some("tok".to_string()));
    assert_eq!((s.token_expiration, s.token_lifetime), (5000, 3600));
    assert!(s.token_refresh(1000).is_none());
    assert!(s.token_refresh(4700).is_some());
    let mut t = None;
    let (mut e, mut l) = (0i64, 0i64);
    apply_token(&mut t, &mut e, &mut l, ("x".into(), 1, 2));
    assert_eq!((t, e, l), (Some("x".to_string()), 1, 2));
}

#[test]
fn backend_accessibility() {
    assert!(IBMQiskitRuntimeService::backend_accessible(Some("active".into())));
    assert!(IBMQiskitRuntimeService::backend_accessible(Some("ONLINE".into())));
    assert!(!IBMQiskitRuntimeService::backend_accessible(Some("paused".into())));
    assert!(!IBMQiskitRuntimeService::backend_accessible(None));
}

#[test]
fn session_reuse_rule() {
    assert!(IBMQiskitRuntimeService::keep_session(Some(500), Some(28800)));
    assert!(!IBMQiskitRuntimeService::keep_session(Some(288), Some(28800)));
    assert!(IBMQiskitRuntimeService::keep_session(None, None));
    assert!(IBMQiskitRuntimeService::keep_session(Some(2), None));
}

#[test]
fn acquire_creates_a_session_when_none_exists() {
    let mut s = IBMQiskitRuntimeService::new("ibm_torino", env());
    match s.acquire_step(AcquireEvent::Start) {
        AcquireAction::CreateSession { request } => {
            assert_eq!(request.mode, SessionMode::Dedicated);
            assert_eq!(request.max_ttl, Some(28800));
            assert_eq!(request.backend, "ibm_torino");
        }
        other => panic!("unexpected action {:?}", other),
    }
    match s.acquire_step(AcquireEvent::SessionCreated { id: "new".into() }) {
        AcquireAction::Acquired { session_id } => assert_eq!(session_id, "new"),
        other => panic!("unexpected action {:?}", other),
    }
    assert_eq!(s.session_id, Some("new".to_string()));
    assert_eq!(s.metadata().value("session_id"), Some("new".to_string()));
}

#[test]
fn acquire_reuses_or_replaces_the_existing_session() {
    let mut e = env();
    e.session_id = Some("old".into());
    let mut s = IBMQiskitRuntimeService::new("ibm_torino", e);
    assert!(matches!(s.acquire_step(AcquireEvent::Start), AcquireAction::GetSessionInformation { session_id } if session_id == "old"));
    assert!(matches!(
        s.acquire_step(AcquireEvent::SessionInformation { active_ttl: Some(1000), max_ttl: Some(28800) }),
        AcquireAction::Acquired { session_id } if session_id == "old"
    ));
    assert!(matches!(
        s.acquire_step(AcquireEvent::SessionInformation { active_ttl: Some(10), max_ttl: Some(28800) }),
        AcquireAction::CloseSession { session_id } if session_id == "old"
    ));
    assert!(matches!(s.acquire_step(AcquireEvent::SessionClosed), AcquireAction::CreateSession { .. }));
    assert_eq!(s.session_id, None);
}

#[test]
fn acquire_refuses_an_unknown_mode() {
    let mut e = env();
    e.session_mode = Some("Shared".into());
    let mut s = IBMQiskitRuntimeService::new("ibm_torino", e);
    match s.acquire_step(AcquireEvent::Start) {
        AcquireAction::Failed { error } => assert_eq!(error.message(), "Invalid session mode: shared"),
        other => panic!("unexpected action {:?}", other),
    }
    let mut e = env();
    e.session_mode = Some("BATCH".into());
    let s = IBMQiskitRuntimeService::new("ibm_torino", e);
    assert_eq!(s.session_mode_value().unwrap(), SessionMode::Batch);
}

#[test]
fn release_forgets_the_session() {
    let mut e = env();
    e.session_id = Some("old".into());
    let mut s = IBMQiskitRuntimeService::new("ibm_torino", e);
    s.session_released();
    assert_eq!(s.session_id, None);
    assert_eq!(s.metadata().value("session_id"), None);
    assert_eq!(s.metadata().value("backend_name"), Some("ibm_torino".to_string()));
}

#[test]
fn job_requests() {
    let mut e = env();
    e.timeout_seconds = Some("300".into());
    e.session_id = Some("sess".into());
    let s = IBMQiskitRuntimeService::new("ibm_torino", e);
    let req = s
        .job_request(Payload::QiskitPrimitive { input: "{\"pubs\":[],\"version\":2}".into(), program_id: "sampler".into() })
        .unwrap();
    assert_eq!(req.program_id, "sampler");
    assert_eq!(req.backend, "ibm_torino");
    assert_eq!(req.cost, Some(300));
    assert_eq!(req.session_id, Some("sess".to_string()));
    assert!(req.runtime.is_none() && req.tags.is_none() && req.log_level.is_none());
    let params = req.params.unwrap();
    assert_eq!(params, serde_json::from_str::<serde_json::Value>("{\"pubs\":[],\"version\":2}").unwrap());
    let req = s.job_request(Payload::QiskitPrimitive { input: "[1,2]".into(), program_id: "estimator".into() }).unwrap();
    assert!(req.params.is_none());
    let bad = s.job_request(Payload::QiskitPrimitive { input: "{not json".into(), program_id: "sampler".into() });
    assert!(matches!(bad, Err(QrmiError::InvalidJson { .. })));
    let other = s.job_request(Payload::PasqalCloud { sequence: "s".into(), job_runs: 1 });
    assert_eq!(
        other.unwrap_err().message(),
        "Payload type is not supported: PasqalCloud { sequence: \"s\", job_runs: 1 }"
    );
}

#[test]
fn qiskit_runtime_job_states() {
    let running = IBMQiskitRuntimeService::stop_plan(JobResponseStatus::Running);
    assert!(running.cancel && running.delete);
    let queued = IBMQiskitRuntimeService::stop_plan(JobResponseStatus::Queued);
    assert!(!queued.cancel && queued.delete);
    let done = IBMQiskitRuntimeService::stop_plan(JobResponseStatus::Completed);
    assert!(!done.cancel && done.delete);
    assert!(!IBMQiskitRuntimeService::stop_plan(JobResponseStatus::CancelledRanTooLong).cancel);
    assert_eq!(IBMQiskitRuntimeService::task_status(JobResponseStatus::Queued), TaskStatus::Queued);
    assert_eq!(IBMQiskitRuntimeService::task_status(JobResponseStatus::Running), TaskStatus::Running);
    assert_eq!(IBMQiskitRuntimeService::task_status(JobResponseStatus::Completed), TaskStatus::Completed);
    assert_eq!(IBMQiskitRuntimeService::task_status(JobResponseStatus::Cancelled), TaskStatus::Cancelled);
    assert_eq!(IBMQiskitRuntimeService::task_status(JobResponseStatus::CancelledRanTooLong), TaskStatus::Cancelled);
    assert_eq!(IBMQiskitRuntimeService::task_status(JobResponseStatus::Failed), TaskStatus::Failed);
    assert!(IBMQiskitRuntimeService::result_ready(JobResponseStatus::Completed).is_ok());
    assert_eq!(
        IBMQiskitRuntimeService::result_ready(JobResponseStatus::Running).unwrap_err().message(),
        "Task is not completed. Current status: Running"
    );
}

#[test]
fn timestamp_from_secs_converts_clock_seconds() {
    assert_eq!(qrmi::qiskit_runtime_client::auth::timestamp_from_secs(Some(1_700_000_000)), Some(1_700_000_000));
    assert_eq!(qrmi::qiskit_runtime_client::auth::timestamp_from_secs(Some(0)), Some(0));
    assert_eq!(qrmi::qiskit_runtime_client::auth::timestamp_from_secs(Some(u64::MAX)), None);
    assert_eq!(qrmi::qiskit_runtime_client::auth::timestamp_from_secs(None), None);
}

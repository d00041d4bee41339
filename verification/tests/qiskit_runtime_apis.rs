use qrmi::qiskit_runtime_client::apis::{
    call_succeeded, cancel_job_jid, content_type, create_job, create_session, delete_session_close,
    get_job_details_jid, get_job_results_jid, list_jobs, read_answer, urlencode, AnswerOutcome,
    Configuration, ContentType, ListJobsQuery, Method, RequestBody,
};
use qrmi::qiskit_runtime_client::apis::{replace_job_tags, update_session_state};
use qrmi::qiskit_runtime_client::models::{ReplaceJobTagsRequest, UpdateSessionStateRequest};

fn config() -> Configuration {
    Configuration {
        base_path: "https://quantum.cloud.ibm.com/api/v1".to_string(),
        user_agent: Some("qrmi".to_string()),
        bearer_access_token: Some("tok".to_string()),
        crn: Some("crn:v1:x".to_string()),
    }
}

fn pairs(v: &[(&str, &str)]) -> Vec<(String, String)> {
    v.iter().map(|(a, b)| (a.to_string(), b.to_string())).collect()
}

#[test]
fn urlencode_keeps_unreserved_bytes() {
    assert_eq!(urlencode("job-123_x.y*Z"), "job-123_x.y*Z");
}

#[test]
fn urlencode_escapes_reserved_bytes() {
    assert_eq!(urlencode("a b/c?d"), "a+b%2Fc%3Fd");
    assert_eq!(urlencode("é"), "%C3%A9");
    assert_eq!(urlencode(""), "");
}

#[test]
fn job_details_request_has_encoded_address_and_headers() {
    let r = get_job_details_jid(&config(), "a/b", Some("2025-01-01"), Some(true));
    assert_eq!(r.method, Method::Get);
    assert_eq!(r.url, "https://quantum.cloud.ibm.com/api/v1/jobs/a%2Fb");
    assert_eq!(r.query, pairs(&[("exclude_params", "true")]));
    assert_eq!(
        r.headers,
        pairs(&[
            ("accept", "application/json"),
            ("user-agent", "qrmi"),
            ("IBM-API-Version", "2025-01-01"),
            ("authorization", "Bearer tok"),
            ("Service-CRN", "crn:v1:x"),
        ])
    );
}

#[test]
fn cancel_request_puts_parent_job_before_version() {
    let mut c = config();
    c.user_agent = None;
    c.crn = None;
    let r = cancel_job_jid(&c, "j1", Some("p0"), Some("v"));
    assert_eq!(r.method, Method::Post);
    assert_eq!(r.url, "https://quantum.cloud.ibm.com/api/v1/jobs/j1/cancel");
    assert!(r.query.is_empty());
    assert_eq!(
        r.headers,
        pairs(&[
            ("accept", "application/json"),
            ("Parent-Job-Id", "p0"),
            ("IBM-API-Version", "v"),
            ("authorization", "Bearer tok"),
        ])
    );
}

#[test]
fn create_job_request_puts_version_before_parent_job() {
    let r = create_job(&config(), Some("v"), Some("p0"), None);
    assert_eq!(r.method, Method::Post);
    assert_eq!(r.url, "https://quantum.cloud.ibm.com/api/v1/jobs");
    assert_eq!(r.headers[2], ("IBM-API-Version".to_string(), "v".to_string()));
    assert_eq!(r.headers[3], ("Parent-Job-Id".to_string(), "p0".to_string()));
    assert!(matches!(r.body, RequestBody::CreateJob(None)));
}

#[test]
fn results_request_targets_results_path() {
    let r = get_job_results_jid(&config(), "j9", None);
    assert_eq!(r.method, Method::Get);
    assert_eq!(r.url, "https://quantum.cloud.ibm.com/api/v1/jobs/j9/results");
    assert_eq!(r.headers.len(), 4);
}

#[test]
fn session_requests_ask_for_json_last() {
    let r = create_session(&config(), None, None);
    assert_eq!(r.method, Method::Post);
    assert_eq!(r.url, "https://quantum.cloud.ibm.com/api/v1/sessions");
    assert_eq!(
        r.headers,
        pairs(&[
            ("user-agent", "qrmi"),
            ("authorization", "Bearer tok"),
            ("Service-CRN", "crn:v1:x"),
            ("accept", "application/json"),
        ])
    );
    let d = delete_session_close(&config(), "s 1", None);
    assert_eq!(d.method, Method::Delete);
    assert_eq!(d.url, "https://quantum.cloud.ibm.com/api/v1/sessions/s+1/close");
}

#[test]
fn list_jobs_query_follows_filter_order() {
    let filters = ListJobsQuery {
        limit: Some(10),
        offset: Some(-5),
        pending: Some(false),
        program: None,
        backend: Some("ibm_torino".to_string()),
        created_after: None,
        created_before: None,
        sort: None,
        tags: Some(vec!["a".to_string(), "b".to_string()]),
        session_id: None,
        exclude_params: Some(true),
    };
    let r = list_jobs(&config(), None, &filters);
    assert_eq!(r.method, Method::Get);
    assert_eq!(r.url, "https://quantum.cloud.ibm.com/api/v1/jobs");
    assert_eq!(
        r.query,
        pairs(&[
            ("limit", "10"),
            ("offset", "-5"),
            ("pending", "false"),
            ("backend", "ibm_torino"),
            ("tags", "a"),
            ("tags", "b"),
            ("exclude_params", "true"),
        ])
    );
}

#[test]
fn content_type_kinds() {
    assert_eq!(content_type("application/json"), ContentType::Json);
    assert_eq!(content_type("application/problem+json; charset=utf-8"), ContentType::Json);
    assert_eq!(content_type("text/plain; charset=utf-8"), ContentType::Text);
    assert_eq!(content_type("application/xml"), ContentType::Unsupported);
    assert_eq!(content_type("json"), ContentType::Unsupported);
    assert_eq!(content_type(""), ContentType::Unsupported);
}

#[test]
fn read_answer_outcomes() {
    assert_eq!(read_answer(404, Some("application/json"), "String", true), AnswerOutcome::ResponseError);
    assert_eq!(read_answer(503, None, "String", true), AnswerOutcome::ResponseError);
    assert_eq!(read_answer(200, None, "models::JobResponse", false), AnswerOutcome::ParseJson);
    assert_eq!(read_answer(200, Some("text/plain"), "String", true), AnswerOutcome::Text);
    assert_eq!(
        read_answer(200, Some("text/plain"), "models::JobResponse", false),
        AnswerOutcome::Unreadable(
            "Received `text/plain` content type response that cannot be converted to `models::JobResponse`"
                .to_string()
        )
    );
    assert_eq!(
        read_answer(204, Some("image/png"), "String", true),
        AnswerOutcome::Unreadable(
            "Received `image/png` content type response that cannot be converted to `String`".to_string()
        )
    );
}

#[test]
fn call_status_classes() {
    assert!(call_succeeded(200));
    assert!(call_succeeded(204));
    assert!(call_succeeded(399));
    assert!(!call_succeeded(400));
    assert!(!call_succeeded(599));
    assert!(call_succeeded(600));
}

#[test]
fn body_requests_carry_their_bodies() {
    let r = replace_job_tags(&config(), "j1", None, Some(ReplaceJobTagsRequest { tags: vec!["t".to_string()] }));
    assert_eq!(r.method, Method::Put);
    assert_eq!(r.url, "https://quantum.cloud.ibm.com/api/v1/jobs/j1/tags");
    match r.body {
        RequestBody::ReplaceJobTags(Some(b)) => assert_eq!(b.tags, vec!["t".to_string()]),
        other => panic!("unexpected body {:?}", other),
    }
    let u = update_session_state(&config(), "s1", None, Some(UpdateSessionStateRequest { accepting_jobs: false }));
    assert_eq!(u.method, Method::Patch);
    assert_eq!(u.url, "https://quantum.cloud.ibm.com/api/v1/sessions/s1");
    assert!(matches!(u.body, RequestBody::UpdateSessionState(Some(UpdateSessionStateRequest { accepting_jobs: false }))));
    let d = get_job_results_jid(&config(), "j1", None);
    assert!(matches!(d.body, RequestBody::Empty));
}

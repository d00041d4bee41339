use qrmi::error::QrmiError;
use qrmi::models::{Payload, TaskStatus};
use qrmi::pasqal::client::{
    check_batch_results, check_single_job, handle_response, select_result_link, BatchStatus, ClientBuilder,
    DeviceType, GetBatchResultLinksResponseData,
};
use qrmi::pasqal::cloud::{auth_token_env_key, project_id_env_key, PasqalCloud};

fn client() -> qrmi::pasqal::client::Client {
    ClientBuilder::new("tok".to_string(), "proj".to_string()).build()
}

#[test]
fn builder_defaults_and_headers() {
    let b = ClientBuilder::new("tok".to_string(), "proj".to_string());
    assert_eq!(b.base_url, "https://apis.pasqal.cloud");
    assert_eq!(
        b.default_headers(),
        vec![
            ("content-type".to_string(), "application/json".to_string()),
            ("authorization".to_string(), "Bearer tok".to_string()),
        ]
    );
    let c = b.build();
    assert_eq!(c.base_url, "https://apis.pasqal.cloud");
    assert_eq!(c.project_id, "proj");
}

#[test]
fn request_addresses() {
    let c = client();
    assert_eq!(c.device_url(DeviceType::Fresnel), "https://apis.pasqal.cloud/core-fast/api/v1/devices?device_type=FRESNEL");
    assert_eq!(c.batches_url(), "https://apis.pasqal.cloud/core-fast/api/v1/batches");
    assert_eq!(c.cancel_batch_url("b1"), "https://apis.pasqal.cloud/core-fast/api/v2/batches/b1/cancel");
    assert_eq!(c.batch_url("b1"), "https://apis.pasqal.cloud/core-fast/api/v2/batches/b1");
    assert_eq!(c.results_link_url("b1"), "https://apis.pasqal.cloud/core-fast/api/v1/batches/b1/results_link");
    assert_eq!(c.device_specs_url(DeviceType::EmuFree), "https://apis.pasqal.cloud/core-fast/api/v1/devices/specs/EMU_FREE");
}

#[test]
fn batch_body_has_one_job() {
    let b = client().create_batch_body("seq".to_string(), 100, DeviceType::EmuFree);
    assert_eq!(b.sequence_builder, "seq");
    assert_eq!(b.jobs.len(), 1);
    assert_eq!(b.jobs[0].runs, 100);
    assert_eq!(b.device_type, DeviceType::EmuFree);
    assert_eq!(b.project_id, "proj");
}

#[test]
fn batch_status_names() {
    let all = [
        BatchStatus::Pending,
        BatchStatus::Running,
        BatchStatus::Done,
        BatchStatus::Canceled,
        BatchStatus::TimedOut,
        BatchStatus::Error,
        BatchStatus::Paused,
    ];
    for s in all {
        assert_eq!(BatchStatus::from_wire_name(s.wire_name()), Some(s));
    }
    assert_eq!(BatchStatus::TimedOut.wire_name(), "TIMEDOUT");
    assert_eq!(BatchStatus::from_wire_name("done"), None);
}

#[test]
fn result_links() {
    let none = GetBatchResultLinksResponseData { results_links: vec![] };
    assert!(matches!(select_result_link(&none), Err(QrmiError::NoResultsFound)));
    let one = GetBatchResultLinksResponseData { results_links: vec![("j1".into(), "https://r/1".into())] };
    assert_eq!(select_result_link(&one).unwrap(), "https://r/1");
    let two = GetBatchResultLinksResponseData {
        results_links: vec![("j1".into(), "https://r/1".into()), ("j2".into(), "https://r/2".into())],
    };
    assert_eq!(select_result_link(&two).unwrap(), "https://r/1");
    assert!(check_single_job(&none).is_ok());
    assert!(check_single_job(&one).is_ok());
    assert!(matches!(check_single_job(&two), Err(QrmiError::MultipleJobsInBatch)));
    assert!(matches!(check_batch_results(String::new()), Err(QrmiError::NoResultsFound)));
    assert_eq!(check_batch_results("{\"counter\":{}}".to_string()).unwrap(), "{\"counter\":{}}");
}

#[test]
fn cloud_resource() {
    assert_eq!(project_id_env_key("FRESNEL"), "FRESNEL_QRMI_PASQAL_CLOUD_PROJECT_ID");
    assert_eq!(auth_token_env_key("FRESNEL"), "FRESNEL_QRMI_PASQAL_CLOUD_AUTH_TOKEN");
    let (cloud, builder) = PasqalCloud::new("FRESNEL", "proj".to_string(), "tok".to_string());
    assert!(cloud.is_job_device());
    assert_eq!(builder.token, "tok");
    assert_eq!(cloud.api_client.project_id, "proj");
    let (other, _) = PasqalCloud::new("EMU_FREE", "proj".to_string(), "tok".to_string());
    assert!(!other.is_job_device());
    assert_eq!(other.invalid_device_message(), "Device EMU_FREE is invalid. Only FRESNEL device can receive jobs.");
    assert!(PasqalCloud::device_is_up("UP"));
    assert!(!PasqalCloud::device_is_up("DOWN"));
    assert!(cloud.metadata().keys().is_empty());
    assert_eq!(PasqalCloud::target_from_specs("specs".to_string()).value, "specs");
}

#[test]
fn cloud_task_start_and_status() {
    let (cloud, _) = PasqalCloud::new("FRESNEL", "proj".to_string(), "tok".to_string());
    let b = cloud
        .task_start_batch(Payload::PasqalCloud { sequence: "seq".into(), job_runs: 5 })
        .unwrap();
    assert_eq!(b.device_type, DeviceType::EmuFree);
    assert_eq!(b.jobs[0].runs, 5);
    assert_eq!(b.sequence_builder, "seq");
    let e = cloud.task_start_batch(Payload::QiskitPrimitive { input: "{}".into(), program_id: "sampler".into() });
    assert_eq!(
        e.unwrap_err().message(),
        "Payload type is not supported. QiskitPrimitive { input: \"{}\", program_id: \"sampler\" }"
    );

    assert_eq!(PasqalCloud::task_status(BatchStatus::Pending), TaskStatus::Queued);
    assert_eq!(PasqalCloud::task_status(BatchStatus::Running), TaskStatus::Running);
    assert_eq!(PasqalCloud::task_status(BatchStatus::Done), TaskStatus::Completed);
    assert_eq!(PasqalCloud::task_status(BatchStatus::Canceled), TaskStatus::Cancelled);
    assert_eq!(PasqalCloud::task_status(BatchStatus::TimedOut), TaskStatus::Failed);
    assert_eq!(PasqalCloud::task_status(BatchStatus::Error), TaskStatus::Failed);
    assert_eq!(PasqalCloud::task_status(BatchStatus::Paused), TaskStatus::Queued);
}

#[test]
fn replies_are_read_by_status() {
    assert_eq!(handle_response(true, "200 OK".into(), "{}".into()).unwrap(), "{}");
    let e = handle_response(false, "404 Not Found".into(), "missing".into()).unwrap_err();
    assert_eq!(e.message(), "Status: 404 Not Found, Fail missing");
}

use cruncher_runtime::cli::{select_runtime, runtime_named, Command, RunArgs, RuntimeKind};
use cruncher_runtime::error::ErrorKind;
use cruncher_runtime::process::dummy::{Config, Dummy};
use cruncher_runtime::process::Usage;
use cruncher_runtime::requests::{
    get_client_api_url, init_client_api_url, send_failure, ClientApi, WorkRequest, WorkTarget,
};
use std::path::PathBuf;

#[test]
fn client_api_url_is_set_once_and_read() {
    let mut api = ClientApi::new();
    assert!(!api.is_set());
    assert_eq!(init_client_api_url(&mut api, Ok("http://127.0.0.1:7861".to_string())), Ok(()));
    assert!(api.is_set());
    assert_eq!(get_client_api_url(&api), "http://127.0.0.1:7861");
}

#[test]
fn missing_variable_is_explained() {
    let mut api = ClientApi::new();
    let r = init_client_api_url(&mut api, Err("environment variable not found".to_string()));
    assert_eq!(
        r,
        Err("CRUNCHER_CLIENT_API_URL not set: environment variable not found. Without this variable runtime cannot connect to client API".to_string())
    );
    assert!(!api.is_set());
}

#[test]
fn request_addresses() {
    let base = "http://host:1";
    assert_eq!(WorkRequest::SetTarget.url(base), "http://host:1/api/runners/target/set");
    assert_eq!(WorkRequest::Start.url(base), "http://host:1/api/runners/start");
    assert_eq!(WorkRequest::Stop.url(base), "http://host:1/api/runners/stop");
}

#[test]
fn answers_are_judged_by_their_status() {
    assert!(WorkRequest::Start.judge(200, "200 OK", Some("started".to_string())).is_ok());
    assert!(WorkRequest::Stop.judge(299, "299", None).is_ok());
    let e = WorkRequest::SetTarget
        .judge(404, "404 Not Found", Some("no such target".to_string()))
        .unwrap_err();
    assert_eq!(e.kind, ErrorKind::ClientApi);
    assert_eq!(e.detail, "Failed to set WorkTarget: 404 Not Found no such target");
    let e = WorkRequest::Start.judge(500, "500 Internal Server Error", None).unwrap_err();
    assert_eq!(e.detail, "Failed to start runners: 500 Internal Server Error ");
    let e = WorkRequest::Stop.judge(199, "199", Some("x".to_string())).unwrap_err();
    assert_eq!(e.detail, "Failed to stop runners: 199 x");
    assert_eq!(e.text(), "Client API error: Failed to stop runners: 199 x");
    assert!(WorkRequest::Stop.judge(300, "300", None).is_err());
}

#[test]
fn unsent_request_is_an_error() {
    let e = send_failure("connection refused");
    assert_eq!(e.kind, ErrorKind::ClientApi);
    assert_eq!(e.detail, "Failed to send request connection refused");
}

#[test]
fn work_targets_hold_their_text() {
    match WorkTarget::Factory("0xabc".to_string()).clone() {
        WorkTarget::Factory(address) => assert_eq!(address, "0xabc"),
        _ => panic!("a factory target stays one"),
    }
    assert!(matches!(WorkTarget::PublicKeyBase("k".to_string()), WorkTarget::PublicKeyBase(_)));
    assert!(matches!(WorkTarget::Default, WorkTarget::Default));
}

#[test]
fn runtime_is_picked_in_any_case() {
    assert_eq!(select_runtime("dummy"), Ok(RuntimeKind::Dummy));
    assert_eq!(select_runtime("DuMMy"), Ok(RuntimeKind::Dummy));
    assert_eq!(select_runtime("Cruncher"), Err("Unsupported framework Cruncher".to_string()));
    assert_eq!(select_runtime(""), Err("Unsupported framework ".to_string()));
    assert_eq!(runtime_named(&"dummy".to_string()), Some(RuntimeKind::Dummy));
    assert_eq!(runtime_named(&"Dummy".to_string()), None);
}

#[test]
fn only_service_bus_serves_an_activity() {
    let command = Command::ServiceBus {
        service_id: "activity-7".to_string(),
        report_url: "/local/exeunit".to_string(),
        args: RunArgs {
            agreement: PathBuf::from("agreement.json"),
            work_dir: PathBuf::from("work"),
            cache_dir: PathBuf::from("cache"),
        },
    };
    let service = command.service().unwrap();
    assert_eq!(service.activity_id, "activity-7");
    assert_eq!(service.report_url, "/local/exeunit");
    assert_eq!(service.args.agreement, PathBuf::from("agreement.json"));
    assert_eq!(service.args.work_dir, PathBuf::from("work"));
    assert_eq!(service.args.cache_dir, PathBuf::from("cache"));
    assert!(Command::OfferTemplate.service().is_none());
    assert!(Command::Test.service().is_none());
}

#[test]
fn dummy_runtime_passes_its_test() {
    let config = Config::default();
    assert_eq!(config.dummy_arg, None);
    assert_eq!(config.gpu_uuid(), None);
    assert_eq!(Dummy::test(&config), Ok(()));
    let _runtime = Dummy {}.clone();
    assert_eq!(Usage::default().cnt, 0);
}

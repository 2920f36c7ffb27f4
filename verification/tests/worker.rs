use wkhtmltopdf_cluster::helpers::decimal_text;
use wkhtmltopdf_cluster::helpers::get_uid;
use wkhtmltopdf_cluster::helpers::millis_from;
use wkhtmltopdf_cluster::worker::identity_of;
use wkhtmltopdf_cluster::request::request_file;
use wkhtmltopdf_cluster::request::RequestPlan;
use wkhtmltopdf_cluster::worker::Worker;
use wkhtmltopdf_cluster::worker::WorkerAction;
use wkhtmltopdf_cluster::worker::WorkerEvent;
use wkhtmltopdf_cluster::worker::WorkerPhase;

fn frames(parts: &[&str]) -> Vec<String> {
    parts.iter().map(|p| p.to_string()).collect()
}

fn serving(id: u32) -> Worker {
    let mut worker = Worker::new(id, "out", 5);
    worker.step(false, WorkerEvent::Started);
    worker.step(false, WorkerEvent::RendererReady);
    assert_eq!(worker.phase(), WorkerPhase::Serving);
    worker
}

fn rejection(plan: RequestPlan) -> Vec<String> {
    match plan {
        RequestPlan::Reply(envelope) => envelope,
        RequestPlan::Render(job) => panic!("accepted: {:?}", job),
    }
}

#[test]
fn create_worker() {
    let worker = Worker::new(123, "out", 3);
    assert_eq!(worker.id(), 123);
    assert_eq!(worker.output_dir(), "out");
    assert_eq!(worker.timeout(), 3);
    assert_eq!(worker.phase(), WorkerPhase::Created);
}

#[test]
fn start_worker() {
    assert!(true);
    let mut worker = Worker::new(4711, "out", 7);
    match worker.step(false, WorkerEvent::Started) {
        WorkerAction::Start { identity, socket_timeout_ms, watchdog_secs } => {
            assert_eq!(identity, "W4711");
            assert_eq!(socket_timeout_ms, 1000);
            assert_eq!(watchdog_secs, 7);
        }
        other => panic!("unexpected {:?}", other),
    }
    assert_eq!(worker.phase(), WorkerPhase::Starting);
    match worker.step(false, WorkerEvent::RendererReady) {
        WorkerAction::Announce { word } => assert_eq!(word, "READY"),
        other => panic!("unexpected {:?}", other),
    }
    assert_eq!(worker.phase(), WorkerPhase::Serving);
    assert!(matches!(worker.step(false, WorkerEvent::Idle), WorkerAction::Receive));
}

#[test]
fn stop_worker() {
    assert!(true);
    let mut worker = serving(1);
    match worker.step(true, WorkerEvent::Idle) {
        WorkerAction::Leave { farewell } => assert_eq!(farewell, None),
        other => panic!("unexpected {:?}", other),
    }
    assert_eq!(worker.phase(), WorkerPhase::Stopped);
    assert!(matches!(worker.step(false, WorkerEvent::Idle), WorkerAction::Nothing));
}

#[test]
fn stop_word_makes_the_worker_say_gone() {
    let mut worker = serving(1);
    let event = WorkerEvent::Message { frames: frames(&["STOP"]), message_id: 1 };
    match worker.step(false, event) {
        WorkerAction::Leave { farewell } => assert_eq!(farewell, Some("GONE".to_string())),
        other => panic!("unexpected {:?}", other),
    }
    assert_eq!(worker.phase(), WorkerPhase::Stopped);
}

#[test]
fn renderer_failure_exits_without_announcing() {
    let mut worker = Worker::new(1, "out", 5);
    worker.step(false, WorkerEvent::Started);
    assert!(matches!(worker.step(false, WorkerEvent::RendererFailed), WorkerAction::Exit));
    assert_eq!(worker.phase(), WorkerPhase::Stopped);
}

#[test]
fn renderer_is_started_once() {
    let mut worker = Worker::new(1, "out", 5);
    let mut starts = 0;
    let events = vec![
        WorkerEvent::Started,
        WorkerEvent::Started,
        WorkerEvent::RendererReady,
        WorkerEvent::Started,
        WorkerEvent::Idle,
        WorkerEvent::RendererReady,
        WorkerEvent::Started,
    ];
    for event in events {
        if let WorkerAction::Start { .. } = worker.step(false, event) {
            starts += 1;
        }
    }
    assert_eq!(starts, 1);
}

#[test]
fn malformed_dispatch_aborts_the_worker() {
    let mut worker = serving(1);
    let event = WorkerEvent::Message { frames: frames(&["client", "x", "{}"]), message_id: 1 };
    assert!(matches!(worker.step(false, event), WorkerAction::Abort));
    assert_eq!(worker.phase(), WorkerPhase::Stopped);
}

#[test]
fn happy_path() {
    let mut worker = serving(42);
    let body = "{\"url\":\"http://127.0.0.1:8080/ok\",\"global\":{},\"object\":{}}";
    let event = WorkerEvent::Message { frames: frames(&["client-1", "", body]), message_id: 1700000000123 };
    match worker.step(false, event) {
        WorkerAction::Render(job) => {
            assert_eq!(job.url, "http://127.0.0.1:8080/ok");
            assert_eq!(job.filename, "req-42-1700000000123.pdf");
            assert!(job.global.is_empty());
            assert!(job.object.is_empty());
        }
        other => panic!("unexpected {:?}", other),
    }
    assert_eq!(worker.phase(), WorkerPhase::Rendering);
    match worker.step(false, WorkerEvent::Rendered) {
        WorkerAction::Reply(envelope) => {
            assert_eq!(envelope, frames(&["client-1", "", "200", "", "PDF saved at output directory"]));
        }
        other => panic!("unexpected {:?}", other),
    }
    assert_eq!(worker.phase(), WorkerPhase::Serving);
}

#[test]
fn valid_request_is_never_turned_down() {
    let worker = Worker::new(9, "out", 5);
    let body = "{\"url\":\"http://example.invalid/\",\"object\":{},\"global\":{}}";
    match worker.handle_client_request("c", body, 5) {
        RequestPlan::Render(job) => assert_eq!(job.url, "http://example.invalid/"),
        RequestPlan::Reply(envelope) => panic!("turned down: {:?}", envelope),
    }
}

#[test]
fn url_is_normalised_by_the_parser() {
    let worker = Worker::new(9, "out", 5);
    let body = "{\"url\":\"HTTP://Example.COM\"}";
    match worker.handle_client_request("c", body, 5) {
        RequestPlan::Render(job) => assert_eq!(job.url, "http://example.com/"),
        RequestPlan::Reply(envelope) => panic!("turned down: {:?}", envelope),
    }
}

#[test]
fn warning_is_a_bad_gateway_and_ends_the_worker() {
    let mut worker = serving(42);
    let body = "{\"url\":\"http://127.0.0.1:8080/ok\"}";
    let event = WorkerEvent::Message { frames: frames(&["client-1", "", body]), message_id: 7 };
    assert!(matches!(worker.step(false, event), WorkerAction::Render(_)));
    match worker.step(false, WorkerEvent::Warned("script error".to_string())) {
        WorkerAction::ReplyAndAbort(envelope) => {
            assert_eq!(envelope, frames(&["client-1", "", "502", "", "script error"]));
        }
        other => panic!("unexpected {:?}", other),
    }
    assert_eq!(worker.phase(), WorkerPhase::Stopped);
}

#[test]
fn bad_json() {
    let mut worker = serving(42);
    let event = WorkerEvent::Message { frames: frames(&["client-1", "", "not json"]), message_id: 7 };
    match worker.step(false, event) {
        WorkerAction::Reply(envelope) => {
            assert_eq!(envelope.len(), 5);
            assert_eq!(envelope[0], "client-1");
            assert_eq!(envelope[1], "");
            assert_eq!(envelope[2], "400");
            assert_eq!(envelope[3], "");
            assert!(envelope[4].contains("parse"));
        }
        other => panic!("unexpected {:?}", other),
    }
    assert_eq!(worker.phase(), WorkerPhase::Serving);
    assert!(matches!(worker.step(false, WorkerEvent::Idle), WorkerAction::Receive));
}

#[test]
fn null_payload() {
    let worker = Worker::new(1, "out", 5);
    let envelope = rejection(worker.handle_client_request("c", "null", 1));
    assert_eq!(envelope, frames(&["c", "", "400", "", "Payload cannot be null"]));
}

#[test]
fn missing_url() {
    let worker = Worker::new(1, "out", 5);
    let envelope = rejection(worker.handle_client_request("c", "{\"global\":{}}", 1));
    assert_eq!(envelope[2], "400");
    assert!(envelope[4].contains("url"));
    assert_eq!(envelope[4], "Field 'url' is missing in request payload: {\"global\":{}}");
}

#[test]
fn url_of_wrong_type_counts_as_missing() {
    let worker = Worker::new(1, "out", 5);
    let envelope = rejection(worker.handle_client_request("c", "{\"url\":5}", 1));
    assert_eq!(envelope[2], "400");
    assert_eq!(envelope[4], "Field 'url' is missing in request payload: {\"url\":5}");
    let envelope = rejection(worker.handle_client_request("c", "[1,2]", 1));
    assert_eq!(envelope[4], "Field 'url' is missing in request payload: [1,2]");
}

#[test]
fn unparsable_url() {
    let worker = Worker::new(1, "out", 5);
    let envelope = rejection(worker.handle_client_request("c", "{\"url\":\"no scheme\"}", 1));
    assert_eq!(envelope[2], "400");
    assert_eq!(envelope[4], "Cannot parse URL: {\"url\":\"no scheme\"}");
}

#[test]
fn type_mismatch() {
    let worker = Worker::new(1, "out", 5);
    let body = "{\"url\":\"http://x/\",\"global\":{\"dpi\":\"high\"}}";
    let envelope = rejection(worker.handle_client_request("c", body, 1));
    assert_eq!(envelope[2], "400");
    assert!(envelope[4].contains("Global"));
    assert!(envelope[4].contains("dpi"));
    assert!(envelope[4].contains("Uint"));
    assert_eq!(envelope[4], "Global setting 'dpi' must be of type 'ValueUint': \"high\"");
}

#[test]
fn object_mismatch_names_its_scope() {
    let worker = Worker::new(1, "out", 5);
    let body = "{\"url\":\"http://x/\",\"object\":{\"web.background\":[1]}}";
    let envelope = rejection(worker.handle_client_request("c", body, 1));
    assert_eq!(envelope[4], "Object setting 'web.background' must be of type 'ValueBool': [1]");
}

#[test]
fn global_settings_are_checked_before_object_settings() {
    let worker = Worker::new(1, "out", 5);
    let body = "{\"url\":\"http://x/\",\"object\":{\"page\":1},\"global\":{\"collate\":1}}";
    let envelope = rejection(worker.handle_client_request("c", body, 1));
    assert_eq!(envelope[4], "Global setting 'collate' must be of type 'ValueBool': 1");
}

#[test]
fn settings_are_coerced_and_unknown_keys_ignored() {
    let worker = Worker::new(3, "out", 5);
    let body = "{\"url\":\"http://x/\",\"global\":{\"dpi\":300,\"collate\":true,\"nonsense\":[1],\"documentTitle\":\"T\",\"pageOffset\":-2},\"object\":{\"toc.fontScale\":0.5,\"web.background\":false}}";
    match worker.handle_client_request("c", body, 99) {
        RequestPlan::Render(job) => {
            let mut global = job.global.clone();
            global.sort();
            assert_eq!(
                global,
                vec![
                    ("collate".to_string(), "true".to_string()),
                    ("documentTitle".to_string(), "T".to_string()),
                    ("dpi".to_string(), "300".to_string()),
                    ("pageOffset".to_string(), "-2".to_string()),
                ]
            );
            let mut object = job.object.clone();
            object.sort();
            assert_eq!(
                object,
                vec![
                    ("toc.fontScale".to_string(), "0.5".to_string()),
                    ("web.background".to_string(), "false".to_string()),
                ]
            );
            assert_eq!(job.filename, "req-3-99.pdf");
        }
        RequestPlan::Reply(envelope) => panic!("turned down: {:?}", envelope),
    }
}

#[test]
fn identity_and_file_names() {
    assert_eq!(identity_of(0), "W0");
    assert_eq!(identity_of(4294967295), "W4294967295");
    assert_eq!(request_file(12, 0), "req-12-0.pdf");
    assert_eq!(decimal_text(0), "0");
    assert_eq!(decimal_text(10), "10");
    assert_eq!(decimal_text(18446744073709551615), "18446744073709551615");
}

#[test]
fn milliseconds_of_a_span() {
    assert_eq!(millis_from(0, 0), Some(0));
    assert_eq!(millis_from(1, 999_999), Some(1000));
    assert_eq!(millis_from(2, 1_000_000), Some(2001));
    assert_eq!(millis_from(1_600_000_000, 123_456_789), Some(1_600_000_000_123));
    assert_eq!(millis_from(u64::MAX / 1000, 615_000_000), Some(u64::MAX));
    assert_eq!(millis_from(u64::MAX / 1000, 616_000_000), None);
    assert_eq!(millis_from(u64::MAX, 0), None);
}

#[test]
fn uid_is_a_recent_timestamp() {
    let first = get_uid().expect("clock");
    assert!(first > 1_600_000_000_000);
    let second = get_uid().expect("clock");
    assert!(second >= first);
}

#[test]
fn success_is_reported_only_after_rendering() {
    let mut worker = serving(5);
    assert!(matches!(worker.step(false, WorkerEvent::Rendered), WorkerAction::Nothing));
    assert_eq!(worker.phase(), WorkerPhase::Serving);
    let body = "{\"url\":\"http://x/\"}";
    let event = WorkerEvent::Message { frames: frames(&["c", "", body]), message_id: 1 };
    assert!(matches!(worker.step(false, event), WorkerAction::Render(_)));
    assert!(matches!(worker.step(true, WorkerEvent::Idle), WorkerAction::Nothing));
    match worker.step(true, WorkerEvent::Rendered) {
        WorkerAction::Reply(envelope) => assert_eq!(envelope[2], "200"),
        other => panic!("unexpected {:?}", other),
    }
}

#[test]
fn same_request_gives_the_same_job_but_for_the_file_name() {
    let body = "{\"url\":\"http://x/\",\"global\":{\"dpi\":96}}";
    let one = Worker::new(1, "out", 5).handle_client_request("c", body, 10);
    let other = Worker::new(2, "elsewhere", 9).handle_client_request("c", body, 20);
    match (one, other) {
        (RequestPlan::Render(a), RequestPlan::Render(b)) => {
            assert_eq!(a.url, b.url);
            assert_eq!(a.global, b.global);
            assert_eq!(a.object, b.object);
            assert_eq!(a.filename, "req-1-10.pdf");
            assert_eq!(b.filename, "req-2-20.pdf");
        }
        other => panic!("unexpected {:?}", other),
    }
}

#[test]
fn negative_dpi_is_turned_down() {
    let worker = Worker::new(1, "out", 5);
    let body = "{\"url\":\"http://x/\",\"global\":{\"dpi\":-1}}";
    let envelope = rejection(worker.handle_client_request("c", body, 1));
    assert_eq!(envelope[2], "400");
    assert_eq!(envelope[4], "Global setting 'dpi' must be of type 'ValueUint': -1");
}

#[test]
fn fraction_for_a_whole_number_setting_is_turned_down() {
    let worker = Worker::new(1, "out", 5);
    let body = "{\"url\":\"http://x/\",\"global\":{\"pageOffset\":1.5}}";
    let envelope = rejection(worker.handle_client_request("c", body, 1));
    assert_eq!(envelope[2], "400");
    assert_eq!(envelope[4], "Global setting 'pageOffset' must be of type 'ValueInt': 1.5");
    let body = "{\"url\":\"http://x/\",\"object\":{\"load.jsdelay\":2.0}}";
    let envelope = rejection(worker.handle_client_request("c", body, 1));
    assert_eq!(envelope[4], "Object setting 'load.jsdelay' must be of type 'ValueUint': 2.0");
}

#[test]
fn numbers_of_the_declared_type_are_accepted() {
    let worker = Worker::new(1, "out", 5);
    let body = "{\"url\":\"http://x/\",\"global\":{\"dpi\":0,\"pageOffset\":-7},\"object\":{\"toc.fontScale\":-3,\"header.spacing\":1e2}}";
    match worker.handle_client_request("c", body, 1) {
        RequestPlan::Render(job) => {
            let mut global = job.global.clone();
            global.sort();
            assert_eq!(
                global,
                vec![("dpi".to_string(), "0".to_string()), ("pageOffset".to_string(), "-7".to_string())]
            );
            let mut object = job.object.clone();
            object.sort();
            assert_eq!(
                object,
                vec![
                    ("header.spacing".to_string(), "100.0".to_string()),
                    ("toc.fontScale".to_string(), "-3".to_string()),
                ]
            );
        }
        RequestPlan::Reply(envelope) => panic!("turned down: {:?}", envelope),
    }
}

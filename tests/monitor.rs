use dead_service_notifier::catalog::{load_catalog, parse_catalog, parse_method, CatalogError, EndpointSpec, HttpMethod};
use dead_service_notifier::config::{effective_interval, UserInput, MIN_INTERVAL_SECS};
use dead_service_notifier::prober::{alert_for, classify, Command, Event, FailureClass, Phase, ProbeOutcome, Prober, PROBE_TIMEOUT_SECS};
use dead_service_notifier::scheduler::plan_probers;

const SVC_A: &str = r#"[{"name":"svc-a","url":"http://127.0.0.1:9/", "method":"Get"}]"#;

fn endpoint(name: &str, url: &str, method: HttpMethod) -> EndpointSpec {
    EndpointSpec { name: name.to_string(), url: url.to_string(), method }
}

fn expect_sleep(cmds: &[Command], secs: u64) {
    assert_eq!(cmds.len(), 1);
    assert!(matches!(cmds[0], Command::Sleep(s) if s == secs));
}

#[test]
fn interval_is_clamped_to_minimum() {
    assert_eq!(effective_interval(0), 5);
    assert_eq!(effective_interval(3), 5);
    assert_eq!(effective_interval(5), 5);
    assert_eq!(effective_interval(6), 6);
    assert_eq!(effective_interval(60), 60);
    assert_eq!(MIN_INTERVAL_SECS, 5);
    assert_eq!(UserInput::new("apis.json".to_string(), 1).interval(), 5);
    assert_eq!(UserInput::default().interval(), 5);
    assert_eq!(UserInput::default().file_name, "");
}

#[test]
fn catalog_single_entry() {
    let cat = parse_catalog(SVC_A.as_bytes()).unwrap();
    assert_eq!(cat.len(), 1);
    assert_eq!(cat[0].name, "svc-a");
    assert_eq!(cat[0].url, "http://127.0.0.1:9/");
    assert_eq!(cat[0].method, HttpMethod::Get);
}

#[test]
fn catalog_keeps_order_and_ignores_extra_members() {
    let text = r#"[
        {"name": "b", "url": "http://b.example/", "method": "Post", "note": 7},
        {"method": "Get", "url": "http://a.example/x", "name": "a"}
    ]"#;
    let cat = parse_catalog(text.as_bytes()).unwrap();
    assert_eq!(cat.len(), 2);
    assert_eq!(cat[0].name, "b");
    assert_eq!(cat[0].method, HttpMethod::Post);
    assert_eq!(cat[1].name, "a");
    assert_eq!(cat[1].url, "http://a.example/x");
    assert_eq!(cat[1].method, HttpMethod::Get);
}

#[test]
fn catalog_empty_array() {
    assert_eq!(parse_catalog(b"[]").unwrap().len(), 0);
}

#[test]
fn catalog_malformed_inputs() {
    let bad: [&str; 9] = [
        "",
        "not json",
        r#"{"name":"a","url":"u","method":"Get"}"#,
        r#"[{"name":"a","url":"u","method":"Put"}]"#,
        r#"[{"name":"a","url":"u","method":"get"}]"#,
        r#"[{"name":"a","method":"Get"}]"#,
        r#"[{"name":1,"url":"u","method":"Get"}]"#,
        r#"[{"name":"a","url":"u","method":"Get"}, 3]"#,
        r#"[{"name":"a","url":"u","method":"Get"}] trailing"#,
    ];
    for text in bad {
        assert!(matches!(parse_catalog(text.as_bytes()), Err(CatalogError::Malformed)), "{}", text);
    }
}

#[test]
fn load_reports_unreadable_and_malformed() {
    assert!(matches!(load_catalog(None), Err(CatalogError::Unreadable)));
    assert!(matches!(load_catalog(Some(b"[1]")), Err(CatalogError::Malformed)));
    assert_eq!(load_catalog(Some(SVC_A.as_bytes())).unwrap().len(), 1);
}

#[test]
fn catalog_error_messages() {
    assert_eq!(CatalogError::Unreadable.message("apis.json"), "Unable to open apis.json.");
    assert_eq!(CatalogError::Malformed.message("apis.json"), "apis.json could not be parsed.");
}

#[test]
fn method_tokens() {
    assert_eq!(parse_method("Get"), Some(HttpMethod::Get));
    assert_eq!(parse_method("Post"), Some(HttpMethod::Post));
    assert_eq!(parse_method("GET"), None);
    assert_eq!(parse_method(""), None);
}

#[test]
fn classification_ignores_status() {
    assert_eq!(classify(ProbeOutcome::Unreachable), Some(FailureClass::HostDown));
    assert_eq!(classify(ProbeOutcome::Incomplete), Some(FailureClass::ServiceDown));
    assert_eq!(classify(ProbeOutcome::Complete(200)), None);
    assert_eq!(classify(ProbeOutcome::Complete(500)), None);
    assert_eq!(classify(ProbeOutcome::Complete(404)), None);
}

#[test]
fn alert_texts() {
    let e = endpoint("svc", "http://h/", HttpMethod::Get);
    let host = alert_for(&e, FailureClass::HostDown);
    let service = alert_for(&e, FailureClass::ServiceDown);
    assert_eq!(host.title, "svc");
    assert_eq!(host.body, "主機死掉了！！！！\nhttp://h/");
    assert_eq!(service.title, "svc");
    assert_eq!(service.body, "服務死掉了！！！！\nhttp://h/");
    assert_ne!(host.body, service.body);
}

#[test]
fn scheduler_one_prober_per_entry() {
    let none = plan_probers(Vec::new(), &UserInput::new("x".to_string(), 9));
    assert_eq!(none.len(), 0);
    let cat = vec![
        endpoint("a", "http://a/", HttpMethod::Get),
        endpoint("b", "http://b/", HttpMethod::Post),
        endpoint("a", "http://c/", HttpMethod::Get),
    ];
    let probers = plan_probers(cat, &UserInput::new("x".to_string(), 2));
    assert_eq!(probers.len(), 3);
    let urls: Vec<&str> = probers.iter().map(|p| p.endpoint().url.as_str()).collect();
    assert_eq!(urls, vec!["http://a/", "http://b/", "http://c/"]);
    for p in &probers {
        assert_eq!(p.interval(), 5);
        assert_eq!(p.phase(), Phase::Waiting);
    }
}

#[test]
fn refused_endpoint_alerts_every_cycle() {
    let cat = parse_catalog(SVC_A.as_bytes()).unwrap();
    let mut probers = plan_probers(cat, &UserInput::new("apis.json".to_string(), 5));
    let mut p = probers.pop().unwrap();
    assert!(matches!(p.first_command(), Command::Sleep(5)));
    for _ in 0..3 {
        let cmds = p.on_event(Event::Woke);
        assert_eq!(cmds.len(), 1);
        match &cmds[0] {
            Command::Send(req) => {
                assert_eq!(req.method, HttpMethod::Get);
                assert_eq!(req.url, "http://127.0.0.1:9/");
                assert_eq!(req.timeout_secs, PROBE_TIMEOUT_SECS);
            }
            _ => panic!("expected a request"),
        }
        let cmds = p.on_event(Event::Finished(ProbeOutcome::Unreachable));
        assert_eq!(cmds.len(), 2);
        match &cmds[0] {
            Command::Notify(a) => {
                assert_eq!(a.title, "svc-a");
                assert_eq!(a.body, "主機死掉了！！！！\nhttp://127.0.0.1:9/");
            }
            _ => panic!("expected an alert"),
        }
        assert!(matches!(cmds[1], Command::Sleep(5)));
    }
}

#[test]
fn complete_probes_never_alert() {
    let mut p = Prober::new(endpoint("ok", "https://ok.example/", HttpMethod::Post), 7);
    for status in [200u16, 204, 500, 404] {
        let cmds = p.on_event(Event::Woke);
        assert!(matches!(&cmds[0], Command::Send(r) if r.method == HttpMethod::Post));
        let cmds = p.on_event(Event::Finished(ProbeOutcome::Complete(status)));
        expect_sleep(&cmds, 7);
    }
}

#[test]
fn truncated_body_alerts_service_down() {
    let mut p = Prober::new(endpoint("svc", "http://10.0.0.1:8080/health", HttpMethod::Get), 5);
    for _ in 0..2 {
        p.on_event(Event::Woke);
        let cmds = p.on_event(Event::Finished(ProbeOutcome::Incomplete));
        assert_eq!(cmds.len(), 2);
        assert!(matches!(&cmds[0], Command::Notify(a)
            if a.title == "svc" && a.body == "服務死掉了！！！！\nhttp://10.0.0.1:8080/health"));
        assert!(matches!(cmds[1], Command::Sleep(5)));
    }
}

#[test]
fn invalid_url_stops_with_exit() {
    let mut p = Prober::new(endpoint("bad", "not a url", HttpMethod::Get), 5);
    let cmds = p.on_event(Event::Woke);
    assert_eq!(cmds.len(), 1);
    assert!(matches!(&cmds[0], Command::Exit(m) if m == "Unable to parse \"not a url\" as url."));
    assert_eq!(p.phase(), Phase::Stopped);
    assert!(p.on_event(Event::Woke).is_empty());
}

#[test]
fn events_out_of_phase_are_ignored() {
    let mut p = Prober::new(endpoint("a", "http://a/", HttpMethod::Get), 5);
    assert!(p.on_event(Event::Finished(ProbeOutcome::Unreachable)).is_empty());
    assert_eq!(p.phase(), Phase::Waiting);
    p.on_event(Event::Woke);
    assert!(p.on_event(Event::Woke).is_empty());
    assert_eq!(p.phase(), Phase::Probing);
}

#[test]
fn url_check_can_be_given() {
    let mut p = Prober::new(endpoint("a", "http://a/", HttpMethod::Get), 5);
    let cmds = p.on_event_with(Event::Woke, false);
    assert!(matches!(&cmds[0], Command::Exit(m) if m == "Unable to parse \"http://a/\" as url."));
}

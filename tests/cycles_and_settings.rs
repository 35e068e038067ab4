use pong::config::{self, Config, TaskConfig, TaskGroupConfig, WebServerConfig};
use pong::ping_error::{PingError, ReplyFault, ResolveError};
use pong::scheduler::{CycleAction, GroupCycle};
use pong::settings::pong_settings::{
    self, PongSettings, SettingsError, TaskGroupSettings, TaskSettings, TaskType,
};
use pong::settings::settings;
use pong::task::http_ping::{status_outcome, HttpMethod, HttpTarget};
use pong::task::probe::{plan_probe, ProbePlan};

#[test]
fn cycle_runs_tasks_in_order_then_sleeps() {
    let mut cycle = GroupCycle::new(1000, 3);
    let mut actions = Vec::new();
    for _ in 0..8 {
        actions.push(cycle.next_action());
    }
    assert_eq!(
        actions,
        vec![
            CycleAction::Probe(0),
            CycleAction::Probe(1),
            CycleAction::Probe(2),
            CycleAction::Sleep(1000),
            CycleAction::Probe(0),
            CycleAction::Probe(1),
            CycleAction::Probe(2),
            CycleAction::Sleep(1000),
        ]
    );
}

/// Counts the passes a cycle starts before `window` milliseconds of simulated
/// time, with probes taking no time.
fn passes_within(interval: u64, n_tasks: usize, window: u64) -> usize {
    let mut cycle = GroupCycle::new(interval, n_tasks);
    let mut now = 0u64;
    let mut passes = 0usize;
    while now < window {
        match cycle.next_action() {
            CycleAction::Probe(0) => passes += 1,
            CycleAction::Probe(_) => {}
            CycleAction::Sleep(ms) => now += ms,
        }
    }
    passes
}

#[test]
fn groups_keep_their_own_cadence() {
    assert_eq!(passes_within(1000, 2, 5000), 5);
    assert_eq!(passes_within(5000, 1, 5000), 1);
}

#[test]
fn empty_settings_are_rejected() {
    let s = PongSettings { task_groups: vec![] };
    assert_eq!(s.check(), Err(SettingsError::NoTaskGroups));
}

fn group(tasks: Vec<TaskSettings>) -> TaskGroupSettings {
    TaskGroupSettings { interval: Some(1000), timeout: Some(200), tasks }
}

#[test]
fn empty_group_is_rejected() {
    let task = TaskSettings { task_type: TaskType::ICMP, target: "127.0.0.1".to_string() };
    let s = PongSettings { task_groups: vec![group(vec![task.clone()]), group(vec![]), group(vec![])] };
    assert_eq!(s.check(), Err(SettingsError::EmptyTaskGroup(1)));
    let good = PongSettings { task_groups: vec![group(vec![task])] };
    assert_eq!(good.check(), Ok(()));
}

#[test]
fn default_durations() {
    assert_eq!(pong_settings::interval_default(), Some(3000));
    assert_eq!(pong_settings::timeout_default(), Some(5000));
    assert_eq!(settings::interval_default(), Some(3000));
    assert_eq!(settings::timeout_default(), Some(5000));
    assert_eq!(config::interval_default(), Some(3000));
    assert_eq!(config::timeout_default(), Some(5000));
}

#[test]
fn default_web_server() {
    let w = config::web_server_default();
    assert_eq!(w.bind, vec!["0.0.0.0".to_string()]);
    assert_eq!(w.port, Some(6780));
    assert_eq!(config::port_default(), Some(6780));
}

fn parsed_config(groups: Vec<TaskGroupConfig>) -> Config {
    Config {
        web_server: WebServerConfig { bind: vec!["127.0.0.1".to_string()], port: Some(80) },
        task_groups: groups,
    }
}

#[test]
fn config_port_override_and_checks() {
    let task = TaskConfig { task_type: config::TaskType::TCP, target: "127.0.0.1:22".to_string() };
    let g = TaskGroupConfig { interval: Some(3000), timeout: Some(5000), tasks: vec![task] };
    let c = Config::from_parsed(parsed_config(vec![g.clone()]), Some(9000)).unwrap();
    assert_eq!(c.web_server.port, Some(9000));
    let c = Config::from_parsed(parsed_config(vec![g.clone()]), None).unwrap();
    assert_eq!(c.web_server.port, Some(80));
    assert_eq!(
        Config::from_parsed(parsed_config(vec![]), None).unwrap_err(),
        SettingsError::NoTaskGroups
    );
    let empty = TaskGroupConfig { interval: None, timeout: None, tasks: vec![] };
    assert_eq!(
        Config::from_parsed(parsed_config(vec![g, empty]), None).unwrap_err(),
        SettingsError::EmptyTaskGroup(1)
    );
}

#[test]
fn type_names() {
    assert_eq!(TaskType::ICMP.name(), "ICMP");
    assert_eq!(TaskType::TCP.name(), "TCP");
    assert_eq!(TaskType::HTTP.name(), "HTTP");
}

#[test]
fn urn_with_method_and_url() {
    let t = HttpTarget::parse("GET:http://127.0.0.1:8080").unwrap();
    assert_eq!(t.method, HttpMethod::Get);
    assert_eq!(t.url, "http://127.0.0.1:8080");
    let t = HttpTarget::parse("post:http://127.0.0.1/x").unwrap();
    assert_eq!(t.method, HttpMethod::Post);
    assert_eq!(t.method.as_str(), "POST");
}

#[test]
fn urn_with_scheme_is_a_get() {
    let t = HttpTarget::parse("https://example.com/health").unwrap();
    assert_eq!(t.method, HttpMethod::Get);
    assert_eq!(t.url, "https://example.com/health");
}

#[test]
fn bad_urns_are_rejected() {
    assert_eq!(HttpTarget::parse("TRACE:http://a").unwrap_err(), ResolveError::InvalidUrn);
    assert_eq!(HttpTarget::parse("PUT:").unwrap_err(), ResolveError::InvalidUrn);
    assert_eq!(HttpTarget::parse("example.com").unwrap_err(), ResolveError::MissingMethod);
}

#[test]
fn target_from_parts() {
    let t = HttpTarget::from_parts(Some((Some("DELETE".to_string()), "u".to_string()))).unwrap();
    assert_eq!(t.method, HttpMethod::Delete);
    assert_eq!(t.url, "u");
    assert_eq!(HttpTarget::from_parts(None).unwrap_err(), ResolveError::InvalidUrn);
    assert_eq!(
        HttpTarget::from_parts(Some((None, "u".to_string()))).unwrap_err(),
        ResolveError::MissingMethod
    );
    assert_eq!(
        HttpTarget::from_parts(Some((Some("get".to_string()), "u".to_string()))).unwrap_err(),
        ResolveError::InvalidUrn
    );
}

#[test]
fn server_error_is_an_invalid_reply() {
    assert_eq!(status_outcome(500), Err(PingError::InvalidReply(ReplyFault::Status(500))));
    assert_eq!(status_outcome(404), Err(PingError::InvalidReply(ReplyFault::Status(404))));
    assert_eq!(status_outcome(199), Err(PingError::InvalidReply(ReplyFault::Status(199))));
    assert_eq!(status_outcome(300), Err(PingError::InvalidReply(ReplyFault::Status(300))));
    assert_eq!(status_outcome(200), Ok(()));
    assert_eq!(status_outcome(204), Ok(()));
    assert_eq!(status_outcome(299), Ok(()));
}

#[test]
fn probe_plan_follows_task_type() {
    let icmp = TaskSettings { task_type: TaskType::ICMP, target: "localhost".to_string() };
    match plan_probe(&icmp).unwrap() {
        ProbePlan::Icmp { host } => assert_eq!(host, "localhost"),
        other => panic!("unexpected plan {:?}", other),
    }
    let tcp = TaskSettings { task_type: TaskType::TCP, target: "127.0.0.1:1".to_string() };
    let plan = plan_probe(&tcp).unwrap();
    assert_eq!(plan.get_name(), "TCP");
    match plan {
        ProbePlan::Tcp { host_port } => assert_eq!(host_port, "127.0.0.1:1"),
        other => panic!("unexpected plan {:?}", other),
    }
    let http = TaskSettings { task_type: TaskType::HTTP, target: "HEAD:http://a/b".to_string() };
    let plan = plan_probe(&http).unwrap();
    assert_eq!(plan.get_name(), "HTTP");
    match plan {
        ProbePlan::Http(t) => {
            assert_eq!(t.method, HttpMethod::Head);
            assert_eq!(t.url, "http://a/b");
        }
        other => panic!("unexpected plan {:?}", other),
    }
    let bad = TaskSettings { task_type: TaskType::HTTP, target: "nothing".to_string() };
    assert_eq!(plan_probe(&bad).unwrap_err(), ResolveError::MissingMethod);
}

#[test]
fn construction_outcome_repeats() {
    for target in ["GET:http://a", "BAD:http://a", "plain"] {
        let task = TaskSettings { task_type: TaskType::HTTP, target: target.to_string() };
        assert_eq!(plan_probe(&task).is_ok(), plan_probe(&task).is_ok());
    }
}

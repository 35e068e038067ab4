//! The single-file configuration format: web server binding and ICMP/TCP task
//! groups. Durations are held in milliseconds.
use crate::settings::pong_settings::SettingsError;
use vstd::prelude::*;

verus! {

/// Whole configuration.
#[derive(Debug, Clone)]
pub struct Config {
    pub web_server: WebServerConfig,
    pub task_groups: Vec<TaskGroupConfig>,
}

/// Addresses and port of the metrics server.
#[derive(Debug, Clone)]
pub struct WebServerConfig {
    pub bind: Vec<String>,
    pub port: Option<u16>,
}

/// Web server settings used when the configuration gives none.
pub fn web_server_default() -> (r: WebServerConfig)
    ensures
        r.bind@.len() == 1,
        r.bind@[0]@ == "0.0.0.0"@,
        r.port == Some(6780u16),
{
    WebServerConfig { bind: bind_default(), port: port_default() }
}

/// Bind address used when none is configured: all IPv4 interfaces.
pub fn bind_default() -> (r: Vec<String>)
    ensures
        r@.len() == 1,
        r@[0]@ == "0.0.0.0"@,
{
    let mut r: Vec<String> = Vec::new();
    r.push(String::from_str("0.0.0.0"));
    r
}

/// Port used when none is configured.
pub fn port_default() -> (r: Option<u16>)
    ensures
        r == Some(6780u16),
{
    Some(6780)
}

/// Protocol of a task in this format.
#[derive(Debug, Clone, Copy, PartialEq, Eq, Structural)]
pub enum TaskType {
    ICMP,
    TCP,
}

/// Tasks that share one interval and one timeout.
#[derive(Debug, Clone)]
pub struct TaskGroupConfig {
    /// Pause after each pass over the tasks, in milliseconds.
    pub interval: Option<u64>,
    /// Bound of every probe of the group, in milliseconds.
    pub timeout: Option<u64>,
    pub tasks: Vec<TaskConfig>,
}

/// Interval used when the configuration gives none: 3 seconds.
pub fn interval_default() -> (r: Option<u64>)
    ensures
        r == Some(3000u64),
{
    Some(3000)
}

/// Timeout used when the configuration gives none: 5 seconds.
pub fn timeout_default() -> (r: Option<u64>)
    ensures
        r == Some(5000u64),
{
    Some(5000)
}

/// One task: what to probe and how.
#[derive(Debug, Clone)]
pub struct TaskConfig {
    pub task_type: TaskType,
    pub target: String,
}

/// Every group at position below `n` has a task.
pub open spec fn groups_have_tasks(groups: Seq<TaskGroupConfig>, n: int) -> bool {
    forall|i: int| 0 <= i < n ==> #[trigger] groups[i].tasks@.len() > 0
}

impl Config {
    /// Completes a parsed configuration: a port given on the command line
    /// replaces the configured one; a configuration without task groups, or
    /// with a group without tasks, is rejected (the first fault is reported).
    pub fn from_parsed(config: Config, port: Option<u16>) -> (r: Result<Config, SettingsError>)
        ensures
            config.task_groups@.len() == 0 ==> r == Err::<Config, SettingsError>(
                SettingsError::NoTaskGroups,
            ),
            forall|g: usize|
                config.task_groups@.len() > 0 && g < config.task_groups@.len()
                    && config.task_groups@[g as int].tasks@.len() == 0 && groups_have_tasks(
                    config.task_groups@,
                    g as int,
                ) ==> r == Err::<Config, SettingsError>(SettingsError::EmptyTaskGroup(g)),
            r is Ok <==> config.task_groups@.len() > 0 && groups_have_tasks(
                config.task_groups@,
                config.task_groups@.len() as int,
            ),
            r matches Ok(c) ==> c.task_groups@ == config.task_groups@ && c.web_server.bind@
                == config.web_server.bind@ && c.web_server.port == (if port is Some {
                port
            } else {
                config.web_server.port
            }),
    {
        if config.task_groups.len() == 0 {
            return Err(SettingsError::NoTaskGroups);
        }
        let mut i: usize = 0;
        while i < config.task_groups.len()
            invariant
                config.task_groups@.len() > 0,
                i <= config.task_groups@.len(),
                groups_have_tasks(config.task_groups@, i as int),
            decreases config.task_groups@.len() - i,
        {
            if config.task_groups[i].tasks.len() == 0 {
                assert forall|g: usize|
                    g < config.task_groups@.len() && config.task_groups@[g as int].tasks@.len() == 0
                        && groups_have_tasks(config.task_groups@, g as int) implies g == i by {
                    if g > i {
                        assert(config.task_groups@[i as int].tasks@.len() > 0);
                    }
                }
                return Err(SettingsError::EmptyTaskGroup(i));
            }
            i = i + 1;
        }
        let mut c = config;
        if port.is_some() {
            c.web_server.port = port;
        }
        Ok(c)
    }
}

} // verus!

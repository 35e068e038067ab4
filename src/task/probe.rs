//! Building a task's probe: the choice of protocol and the parsing of its target.
use crate::ping_error::ResolveError;
use crate::settings::pong_settings::{TaskSettings, TaskType};
use crate::task::http_ping::{http_target_of, HttpMethod, HttpTarget};
use vstd::prelude::*;

verus! {

/// What a task's probe needs before it can run. ICMP and TCP targets still
/// have their host resolved to an address when the probe is built.
#[derive(Debug, Clone)]
pub enum ProbePlan {
    /// Echo requests to `host`, a host name or an IP literal.
    Icmp { host: String },
    /// A connection to `host_port`, written `host:port`.
    Tcp { host_port: String },
    /// A request with the parsed method and URL.
    Http(HttpTarget),
}

/// Whether a task of `task_type` with `target` gets a plan: always for ICMP and
/// TCP, and for HTTP when the target is an accepted `method:url` URN.
pub open spec fn plan_ok(task_type: TaskType, target: Seq<char>) -> bool {
    match task_type {
        TaskType::HTTP => http_target_of(target) is Ok,
        _ => true,
    }
}

/// Chooses the probe of `task` by its type and parses its target. The outcome
/// depends on the task type and the target text alone.
pub fn plan_probe(task: &TaskSettings) -> (r: Result<ProbePlan, ResolveError>)
    ensures
        r is Ok <==> plan_ok(task.task_type, task.target@),
        task.task_type == TaskType::ICMP ==> (r matches Ok(ProbePlan::Icmp { host }) && host@
            == task.target@),
        task.task_type == TaskType::TCP ==> (r matches Ok(ProbePlan::Tcp { host_port })
            && host_port@ == task.target@),
        task.task_type == TaskType::HTTP ==> (match r {
            Ok(ProbePlan::Http(t)) => http_target_of(task.target@) == Ok::<
                (HttpMethod, Seq<char>),
                ResolveError,
            >(t@),
            Err(e) => http_target_of(task.target@) == Err::<(HttpMethod, Seq<char>), ResolveError>(
                e,
            ),
            _ => false,
        }),
{
    match task.task_type {
        TaskType::ICMP => Ok(ProbePlan::Icmp { host: task.target.clone() }),
        TaskType::TCP => Ok(ProbePlan::Tcp { host_port: task.target.clone() }),
        TaskType::HTTP => match HttpTarget::parse(task.target.as_str()) {
            Ok(t) => Ok(ProbePlan::Http(t)),
            Err(e) => Err(e),
        },
    }
}

impl ProbePlan {
    /// Protocol name of the probe: `ICMP`, `TCP` or `HTTP`.
    pub fn get_name(&self) -> (r: String)
        ensures
            r@ == (match self {
                ProbePlan::Icmp { .. } => TaskType::ICMP,
                ProbePlan::Tcp { .. } => TaskType::TCP,
                ProbePlan::Http(_) => TaskType::HTTP,
            }).name_spec(),
    {
        let t = match self {
            ProbePlan::Icmp { .. } => TaskType::ICMP,
            ProbePlan::Tcp { .. } => TaskType::TCP,
            ProbePlan::Http(_) => TaskType::HTTP,
        };
        String::from_str(t.name())
    }
}

} // verus!

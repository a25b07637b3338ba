//! `dev logs`: the log of the lifecycle hooks, then those of the containers.
use vstd::prelude::*;

use crate::model::ContainerInfo;
use crate::text::{cat3, cat5, owned, text_opt};

verus! {

/// What is printed of the hooks' log: the log under a head, and where the log of
/// the run before is; or that there is none.
pub open spec fn hook_log(path: Seq<char>, content: Option<Seq<char>>, previous: Option<Seq<char>>) -> Seq<char> {
    match content {
        Some(log) => "=== lifecycle hooks ("@ + path + ") ===\n"@ + log + match previous {
            Some(prev) => "(previous run kept at "@ + prev + ")\n"@,
            None => ""@,
        },
        None => "No lifecycle hook log for this workspace yet; `dev up` records one.\n"@,
    }
}

/// What is printed of the hooks' log. `content` is the log, if it could be read,
/// and `previous` is where the log of the run before is, if there is one.
pub fn print_hook_log(path: &str, content: &Option<String>, previous: &Option<String>) -> (r: String)
    ensures
        r@ == hook_log(path@, text_opt(*content), text_opt(*previous)),
{
    match content {
        Some(log) => {
            let note = match previous {
                Some(prev) => cat3("(previous run kept at ", prev.as_str(), ")\n"),
                None => owned(""),
            };
            cat5("=== lifecycle hooks (", path, ") ===\n", log.as_str(), note.as_str())
        },
        None => owned("No lifecycle hook log for this workspace yet; `dev up` records one.\n"),
    }
}

/// Where the logs after the hooks' come from.
#[derive(Debug, PartialEq, Eq)]
pub enum LogSource {
    /// There are no more.
    HooksOnly,
    /// From Compose, which knows every service.
    Compose,
    /// From each of the workspace's containers.
    Containers,
}

/// Where the logs after the hooks' come from. A configuration that could not be
/// loaded is one without Compose.
pub fn log_source(hooks_only: bool, compose: Option<bool>) -> (r: LogSource)
    ensures
        hooks_only ==> r is HooksOnly,
        !hooks_only && compose == Some(true) ==> r is Compose,
        !hooks_only && compose != Some(true) ==> r is Containers,
{
    if hooks_only {
        return LogSource::HooksOnly;
    }
    match compose {
        Some(true) => LogSource::Compose,
        _ => LogSource::Containers,
    }
}

/// The head of a container's log.
pub open spec fn banner(container: ContainerInfo) -> Seq<char> {
    "=== container "@ + container.name@ + " ("@ + container.state.name_text() + ") ===\n"@
}

/// The head of a container's log.
pub fn container_banner(container: &ContainerInfo) -> (r: String)
    ensures
        r@ == banner(*container),
{
    let state = container.state.name();
    cat5("=== container ", container.name.as_str(), " (", state.as_str(), ") ===\n")
}

/// A log to print: its head, and the container it is of.
pub struct LogPart {
    pub banner: String,
    pub id: String,
}

/// What is said where the workspace has no containers.
pub fn no_containers() -> (r: String)
    ensures
        r@ == "No containers found for this workspace. Run `dev up` first.\n"@,
{
    owned("No containers found for this workspace. Run `dev up` first.\n")
}

/// The logs to print, in the order the runtime lists the containers; what to say
/// instead where there are none.
pub fn container_logs(containers: &Vec<ContainerInfo>) -> (r: Result<Vec<LogPart>, String>)
    ensures
        match r {
            Ok(parts) => {
                &&& containers@.len() > 0
                &&& parts@.len() == containers@.len()
                &&& forall|i: int|
                    0 <= i < parts@.len() ==> (#[trigger] parts@[i]).banner@ == banner(containers@[i])
                        && parts@[i].id@ == containers@[i].id@
            },
            Err(guidance) => containers@.len() == 0 && guidance@
                == "No containers found for this workspace. Run `dev up` first.\n"@,
        },
{
    if containers.len() == 0 {
        return Err(no_containers());
    }
    let mut parts: Vec<LogPart> = Vec::new();
    let mut i: usize = 0;
    while i < containers.len()
        invariant
            i <= containers@.len(),
            parts@.len() == i,
            forall|j: int|
                0 <= j < i ==> (#[trigger] parts@[j]).banner@ == banner(containers@[j]) && parts@[j].id@
                    == containers@[j].id@,
        decreases containers@.len() - i,
    {
        parts.push(LogPart { banner: container_banner(&containers[i]), id: containers[i].id.clone() });
        i = i + 1;
    }
    Ok(parts)
}

/// The hooks' log is printed whole behind its head, and it is said where the log of the
/// run before is, where there is one; without a log only that is said.
pub proof fn the_log_is_printed_whole(path: Seq<char>, log: Seq<char>, previous: Option<Seq<char>>)
    ensures
        hook_log(path, Some(log), None) == "=== lifecycle hooks ("@ + path + ") ===\n"@ + log,
        previous is Some ==> hook_log(path, Some(log), previous) == hook_log(path, Some(log), None)
            + "(previous run kept at "@ + previous->Some_0 + ")\n"@,
        hook_log(path, None, previous)
            == "No lifecycle hook log for this workspace yet; `dev up` records one.\n"@,
{
    reveal_strlit("");
    assert(hook_log(path, Some(log), None) =~= "=== lifecycle hooks ("@ + path + ") ===\n"@ + log);
    if previous is Some {
        let head = "=== lifecycle hooks ("@ + path + ") ===\n"@ + log;
        let note = "(previous run kept at "@ + previous->Some_0 + ")\n"@;
        assert(head + note =~= head + "(previous run kept at "@ + previous->Some_0 + ")\n"@);
    }
}

/// The head of a container's log names the container and its state.
pub proof fn heads_name_the_container(container: ContainerInfo)
    ensures
        container.state is Running ==> banner(container) == "=== container "@ + container.name@ + " ("@ + "Running"@
            + ") ===\n"@,
        container.state is Stopped ==> banner(container) == "=== container "@ + container.name@ + " ("@ + "Stopped"@
            + ") ===\n"@,
        container.state matches crate::model::ContainerState::Other(name) ==> banner(container) == "=== container "@
            + container.name@ + " ("@ + name@ + ") ===\n"@,
{
}

} // verus!

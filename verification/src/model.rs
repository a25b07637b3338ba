//! The values the commands share: containers, images, project configuration.
use vstd::prelude::*;

use crate::text::owned;

verus! {

/// A port published from a container on the host.
#[derive(Clone, Copy, Debug, PartialEq, Eq, Structural)]
pub struct PortMapping {
    pub host: u16,
    pub container: u16,
}

/// A host port with the name its local site is served under.
#[derive(Debug, PartialEq, Eq)]
pub struct PortEntry {
    pub port: u16,
    pub custom_name: Option<String>,
    pub keepalive: Option<String>,
}

/// What a runtime reports of a container.
#[derive(Debug, PartialEq, Eq)]
pub enum ContainerState {
    Running,
    Stopped,
    /// Any other state, under the name the runtime gives it.
    Other(String),
}

impl ContainerState {
    /// The name the state is reported under.
    pub open spec fn name_text(&self) -> Seq<char> {
        match self {
            ContainerState::Running => "Running"@,
            ContainerState::Stopped => "Stopped"@,
            ContainerState::Other(name) => name@,
        }
    }

    /// The name the state is reported under.
    pub fn name(&self) -> (r: String)
        ensures
            r@ == self.name_text(),
    {
        match self {
            ContainerState::Running => owned("Running"),
            ContainerState::Stopped => owned("Stopped"),
            ContainerState::Other(name) => name.clone(),
        }
    }

    /// Whether the container is running.
    pub fn is_running(&self) -> (r: bool)
        ensures
            r == (self is Running),
    {
        match self {
            ContainerState::Running => true,
            _ => false,
        }
    }
}

/// A container as a runtime lists it.
#[derive(Debug, PartialEq, Eq)]
pub struct ContainerInfo {
    pub id: String,
    pub name: String,
    pub state: ContainerState,
    pub labels: Vec<(String, String)>,
    pub image: String,
}

/// What a command run in a container left behind.
#[derive(Debug, PartialEq, Eq)]
pub struct ExecResult {
    pub exit_code: i32,
    pub stdout: String,
    pub stderr: String,
}

/// How a project builds its image.
#[derive(Debug, PartialEq, Eq)]
pub struct BuildConfig {
    pub dockerfile: String,
    pub context: Option<String>,
}

/// A command the host runs before anything else.
#[derive(Debug, PartialEq, Eq)]
pub enum LifecycleCommand {
    Single(String),
    Multiple(Vec<String>),
    /// Named commands, in the order they are run.
    Parallel(Vec<(String, String)>),
}

/// A dotfiles repository to clone into the container.
#[derive(Debug, PartialEq, Eq)]
pub struct DotfilesConfig {
    pub repository: String,
    pub target_path: Option<String>,
    pub install_command: Option<String>,
}

/// The parts of an effective `devcontainer.json` that decide what is done.
#[derive(Debug, PartialEq, Eq)]
pub struct DevcontainerConfig {
    pub image: Option<String>,
    pub build: Option<BuildConfig>,
    pub docker_compose_file: Option<Vec<String>>,
    pub service: Option<String>,
    pub forward_ports: Option<Vec<PortMapping>>,
    /// Site names by host port.
    pub caddy: Option<Vec<(String, String)>>,
    pub run_args: Option<Vec<String>>,
    pub remote_user: Option<String>,
    pub initialize_command: Option<LifecycleCommand>,
    pub dotfiles: Option<DotfilesConfig>,
}

impl DevcontainerConfig {
    /// The project is described by Compose files.
    pub open spec fn compose(&self) -> bool {
        self.docker_compose_file is Some
    }

    /// Whether the project is described by Compose files.
    pub fn is_compose(&self) -> (r: bool)
        ensures
            r == self.compose(),
    {
        self.docker_compose_file.is_some()
    }
}

impl Default for DevcontainerConfig {
    fn default() -> (r: Self)
        ensures
            r.image is None && r.build is None && r.docker_compose_file is None && r.service is None,
            r.forward_ports is None && r.caddy is None && r.run_args is None,
            r.remote_user is None && r.initialize_command is None && r.dotfiles is None,
    {
        DevcontainerConfig {
            image: None,
            build: None,
            docker_compose_file: None,
            service: None,
            forward_ports: None,
            caddy: None,
            run_args: None,
            remote_user: None,
            initialize_command: None,
            dotfiles: None,
        }
    }
}

/// Where the first running container stands in a listing, or the listing's
/// length.
pub open spec fn running_at(found: Seq<ContainerInfo>) -> int
    decreases found.len(),
{
    if found.len() == 0 || found[0].state is Running {
        0
    } else {
        1 + running_at(found.drop_first())
    }
}

/// The first running container is the one that has none before it.
pub proof fn running_at_is(found: Seq<ContainerInfo>, i: int)
    requires
        0 <= i <= found.len(),
        forall|j: int| 0 <= j < i ==> !((#[trigger] found[j]).state is Running),
        i < found.len() ==> found[i].state is Running,
    ensures
        running_at(found) == i,
    decreases i,
{
    if i > 0 {
        let t = found.drop_first();
        assert forall|j: int| 0 <= j < i - 1 implies !((#[trigger] t[j]).state is Running) by {
            assert(t[j] == found[j + 1]);
        }
        assert(!(found[0].state is Running));
        if i < found.len() {
            assert(t[i - 1] == found[i]);
        }
        running_at_is(t, i - 1);
    }
}

/// The first running container of a listing, if there is one.
pub fn first_running(found: &Vec<ContainerInfo>) -> (r: Option<usize>)
    ensures
        match r {
            Some(i) => i < found@.len() && running_at(found@) == i && found@[i as int].state is Running,
            None => running_at(found@) == found@.len(),
        },
{
    let mut i: usize = 0;
    while i < found.len()
        invariant
            i <= found@.len(),
            forall|j: int| 0 <= j < i ==> !((#[trigger] found@[j]).state is Running),
        decreases found@.len() - i,
    {
        if found[i].state.is_running() {
            proof {
                running_at_is(found@, i as int);
            }
            return Some(i);
        }
        i = i + 1;
    }
    proof {
        running_at_is(found@, i as int);
    }
    None
}

/// The values `f` gives for the items that have one, in order.
pub open spec fn gathered<A, B>(s: Seq<A>, f: spec_fn(A) -> Option<B>) -> Seq<B>
    decreases s.len(),
{
    if s.len() == 0 {
        Seq::empty()
    } else {
        let before = gathered(s.drop_last(), f);
        match f(s.last()) {
            Some(b) => before.push(b),
            None => before,
        }
    }
}

/// One more item adds what `f` gives for it.
pub proof fn gathered_step<A, B>(s: Seq<A>, f: spec_fn(A) -> Option<B>, i: int)
    requires
        0 <= i < s.len(),
    ensures
        gathered(s.take(i + 1), f) == match f(s[i]) {
            Some(b) => gathered(s.take(i), f).push(b),
            None => gathered(s.take(i), f),
        },
{
    assert(s.take(i + 1).drop_last() == s.take(i));
    assert(s.take(i + 1).last() == s[i]);
}

/// What is gathered is what `f` gives for some item.
pub proof fn gathered_holds<A, B>(s: Seq<A>, f: spec_fn(A) -> Option<B>, b: B)
    ensures
        gathered(s, f).contains(b) <==> exists|i: int| 0 <= i < s.len() && f(#[trigger] s[i]) == Some(b),
    decreases s.len(),
{
    if s.len() > 0 {
        let rest = s.drop_last();
        gathered_holds(rest, f, b);
        let before = gathered(rest, f);
        let all = gathered(s, f);
        if all.contains(b) {
            if before.contains(b) {
                let i = choose|i: int| 0 <= i < rest.len() && f(#[trigger] rest[i]) == Some(b);
                assert(s[i] == rest[i]);
            } else {
                assert(f(s[s.len() - 1]) == Some(b));
            }
        }
        if exists|i: int| 0 <= i < s.len() && f(#[trigger] s[i]) == Some(b) {
            let i = choose|i: int| 0 <= i < s.len() && f(#[trigger] s[i]) == Some(b);
            if i < rest.len() {
                assert(rest[i] == s[i]);
                let k = choose|k: int| 0 <= k < before.len() && before[k] == b;
                assert(all[k] == b);
            } else {
                assert(all[all.len() - 1] == b);
            }
        }
    }
}

/// A copy of a list of strings.
pub fn copy_texts(v: &Vec<String>) -> (r: Vec<String>)
    ensures
        r@ == v@,
{
    let mut out: Vec<String> = Vec::new();
    let mut i: usize = 0;
    while i < v.len()
        invariant
            i <= v@.len(),
            out@ == v@.take(i as int),
        decreases v@.len() - i,
    {
        out.push(v[i].clone());
        i = i + 1;
        assert(v@.take(i as int) == v@.take(i - 1).push(v@[i - 1]));
    }
    assert(v@.take(v@.len() as int) == v@);
    out
}

/// A copy of an optional string.
pub fn copy_opt(v: &Option<String>) -> (r: Option<String>)
    ensures
        r == *v,
{
    match v {
        Some(s) => Some(s.clone()),
        None => None,
    }
}

/// The first running container runs, and none before it does; where there is none, none
/// of the listing runs.
pub proof fn the_first_running_one(found: Seq<ContainerInfo>)
    ensures
        0 <= running_at(found) <= found.len(),
        running_at(found) < found.len() ==> found[running_at(found)].state is Running,
        forall|j: int| 0 <= j < running_at(found) ==> !((#[trigger] found[j]).state is Running),
    decreases found.len(),
{
    if found.len() > 0 && !(found[0].state is Running) {
        let rest = found.drop_first();
        the_first_running_one(rest);
        if running_at(found) < found.len() {
            assert(rest[running_at(rest)] == found[running_at(found)]);
        }
        assert forall|j: int| 0 <= j < running_at(found) implies !((#[trigger] found[j]).state is Running) by {
            if j > 0 {
                assert(rest[j - 1] == found[j]);
            }
        }
    }
}

/// States are named as the runtime names them.
pub proof fn states_are_named(name: String)
    ensures
        ContainerState::Running.name_text() == "Running"@,
        ContainerState::Stopped.name_text() == "Stopped"@,
        ContainerState::Other(name).name_text() == name@,
{
}

/// What is gathered from two lists, one behind the other, is what is gathered from each;
/// from one item, it is what `f` gives for it.
pub proof fn gathered_in_order<A, B>(s: Seq<A>, t: Seq<A>, f: spec_fn(A) -> Option<B>, a: A)
    ensures
        gathered(s + t, f) == gathered(s, f) + gathered(t, f),
        gathered(seq![a], f) == match f(a) {
            Some(b) => seq![b],
            None => Seq::empty(),
        },
    decreases t.len(),
{
    let one = seq![a];
    assert(one.drop_last() =~= Seq::empty());
    assert(gathered(one.drop_last(), f) =~= Seq::empty());
    if t.len() > 0 {
        gathered_in_order(s, t.drop_last(), f, a);
        assert((s + t).drop_last() =~= s + t.drop_last());
        assert((s + t).last() == t.last());
        assert(gathered(s + t, f) =~= gathered(s, f) + gathered(t, f));
    } else {
        assert(s + t =~= s);
        assert(gathered(s, f) + gathered(t, f) =~= gathered(s, f));
    }
}

} // verus!

//! `dev status`: a workspace's containers and the sessions in them.
use vstd::prelude::*;

pub mod laws;

use crate::cmux::{clear_call, session_pill_style, Cmux, SHELL_KEY};
use crate::json::{array_value, bool_value, json_of, json_pretty, number_value, object_value, pretty_text, text_value, Json};
use crate::model::{running_at, ContainerInfo};
use crate::number::decimal_of;
use crate::session::{copy_sessions, Session};
use crate::shell::{decides, session_pill_action, session_pill_call, SessionPill};
use crate::text::{cat2, cat4, cat5, owned, pad, padded, texts};

verus! {

/// One container's sessions; none is a read that failed.
pub type ContainerSessions = Option<Vec<Session>>;

/// What is listed of a container: a read that failed lists nothing.
pub open spec fn listed(sessions: ContainerSessions) -> Seq<Session> {
    match sessions {
        Some(v) => v@,
        None => Seq::empty(),
    }
}

/// What is said where the workspace has no configuration. It is not said where
/// the answer is to be JSON.
pub fn missing_config_notice(has_config: bool, json: bool, workspace: &str) -> (r: Option<String>)
    ensures
        has_config || json ==> r is None,
        !has_config && !json ==> r is Some && r->Some_0@ == "No devcontainer configuration found in "@
            + workspace@,
{
    if has_config || json {
        None
    } else {
        Some(cat2("No devcontainer configuration found in ", workspace))
    }
}

/// The sessions of each container, given what a read of each came to. A
/// container that is not running has none, and its read does not matter.
pub fn collect_sessions(containers: &Vec<ContainerInfo>, reads: Vec<ContainerSessions>) -> (r: Vec<
    ContainerSessions,
>)
    requires
        containers@.len() == reads@.len(),
    ensures
        r@.len() == containers@.len(),
        forall|i: int|
            0 <= i < containers@.len() ==> if containers@[i].state is Running {
                #[trigger] r@[i] == reads@[i]
            } else {
                r@[i] is Some && listed(r@[i]) == Seq::<Session>::empty()
            },
{
    let ghost all = reads@;
    let mut out: Vec<ContainerSessions> = Vec::new();
    let total: usize = containers.len();
    let mut i: usize = 0;
    for read in it: reads.into_iter()
        invariant
            it.seq() == all,
            all.len() == containers@.len(),
            total == containers@.len(),
            i == it.index(),
            out@.len() == i,
            forall|j: int|
                0 <= j < i ==> if containers@[j].state is Running {
                    #[trigger] out@[j] == all[j]
                } else {
                    out@[j] is Some && listed(out@[j]) == Seq::<Session>::empty()
                },
    {
        if containers[i].state.is_running() {
            out.push(read);
        } else {
            out.push(Some(Vec::new()));
        }
        i = i + 1;
    }
    out
}

/// The read that the pill is decided from: the running container's sessions, or,
/// where none is running, that there are none.
pub open spec fn evidence(containers: Seq<ContainerInfo>, sessions: Seq<ContainerSessions>) -> Option<Seq<Session>> {
    let i = running_at(containers);
    if i < containers.len() && i < sessions.len() {
        match sessions[i] {
            Some(v) => Some(v@),
            None => None,
        }
    } else {
        Some(Seq::empty())
    }
}

/// The read that the pill is decided from.
pub fn pill_evidence(containers: &Vec<ContainerInfo>, sessions: &Vec<ContainerSessions>) -> (r: ContainerSessions)
    ensures
        crate::shell::read_of(match r {
            Some(v) => Some(&v),
            None => None,
        }) == evidence(containers@, sessions@),
{
    match crate::model::first_running(containers) {
        Some(i) => {
            if i < sessions.len() {
                match &sessions[i] {
                    Some(v) => Some(copy_sessions(v)),
                    None => None,
                }
            } else {
                Some(Vec::new())
            }
        },
        None => Some(Vec::new()),
    }
}

/// The calls after a decision was carried out.
pub open spec fn repainted(cmux: Cmux, pill: SessionPill) -> Seq<Seq<Seq<char>>> {
    match pill {
        SessionPill::Show(value) => cmux.after_call(session_pill_call(SHELL_KEY@, value@)),
        SessionPill::Clear => cmux.after_call(clear_call(SHELL_KEY@)),
        SessionPill::Leave => cmux.made(),
    }
}

/// Correct a pill that a shell left behind. True where the worker has to be
/// waited for.
pub fn repaint_session_pill(
    cmux: &mut Cmux,
    containers: &Vec<ContainerInfo>,
    sessions: &Vec<ContainerSessions>,
    own_pid: u32,
    workspace_name: &str,
    runtime_name: &str,
) -> (r: bool)
    requires
        evidence(containers@, sessions@) matches Some(read) ==> read.len() < usize::MAX,
    ensures
        !old(cmux).reachable() ==> !r && *final(cmux) == *old(cmux),
        final(cmux).reachable() == old(cmux).reachable(),
        old(cmux).reachable() ==> exists|decision: SessionPill|
            {
                &&& #[trigger] decides(
                    decision,
                    evidence(containers@, sessions@),
                    own_pid,
                    false,
                    workspace_name@,
                    runtime_name@,
                )
                &&& final(cmux).made() == repainted(*old(cmux), decision)
                &&& r == !(decision is Leave)
            },
{
    if !cmux.available() {
        return false;
    }
    let found = pill_evidence(containers, sessions);
    let read: Option<&Vec<Session>> = match &found {
        Some(v) => Some(v),
        None => None,
    };
    let decision = session_pill_action(read, own_pid, false, workspace_name, runtime_name);
    assert(decides(
        decision,
        evidence(containers@, sessions@),
        own_pid,
        false,
        workspace_name@,
        runtime_name@,
    ));
    let ghost before = *cmux;
    let flush = match &decision {
        SessionPill::Show(value) => {
            let style = session_pill_style();
            assert(crate::cmux::status_call(SHELL_KEY@, value@, style) =~= session_pill_call(
                SHELL_KEY@,
                value@,
            ));
            cmux.set_status(SHELL_KEY, value.as_str(), style);
            proof {
                Cmux::same_runner_reaches(*cmux, before);
            }
            true
        },
        SessionPill::Clear => {
            cmux.clear_status(SHELL_KEY);
            proof {
                Cmux::same_runner_reaches(*cmux, before);
            }
            true
        },
        SessionPill::Leave => false,
    };
    flush
}

/// A workspace without a running container shows no shells: whatever the pill
/// said is taken down.
pub proof fn no_container_is_evidence(
    containers: Seq<ContainerInfo>,
    sessions: Seq<ContainerSessions>,
    own_pid: u32,
    workspace_name: Seq<char>,
    runtime_name: Seq<char>,
    decision: SessionPill,
)
    requires
        running_at(containers) >= containers.len(),
        decides(
            decision,
            evidence(containers, sessions),
            own_pid,
            false,
            workspace_name,
            runtime_name,
        ),
    ensures
        decision is Clear,
{
}

/// A running container that could not be read leaves the pill as it is.
pub proof fn a_failed_read_is_carried(
    containers: Seq<ContainerInfo>,
    sessions: Seq<ContainerSessions>,
    own_pid: u32,
    workspace_name: Seq<char>,
    runtime_name: Seq<char>,
    decision: SessionPill,
)
    requires
        running_at(containers) < containers.len(),
        containers.len() == sessions.len(),
        0 <= running_at(containers),
        sessions[running_at(containers)] is None,
        decides(
            decision,
            evidence(containers, sessions),
            own_pid,
            false,
            workspace_name,
            runtime_name,
        ),
    ensures
        decision is Leave,
{
}

// ---------------------------------------------------------------------------
// As JSON
// ---------------------------------------------------------------------------

/// A session as JSON.
pub open spec fn session_document(session: Session) -> Json {
    Json::Object(
        seq![
            ("kind"@, Json::Text(session.0.kind.name_text())),
            ("containerPid"@, Json::Number(decimal_of(session.0.container_pid as nat))),
            ("hostPid"@, Json::Number(decimal_of(session.0.host_pid as nat))),
            ("hostTty"@, Json::Text(session.0.host_tty@)),
            ("live"@, Json::Bool(session.1)),
        ],
    )
}

/// A session as JSON.
pub fn session_json(session: &Session) -> (r: serde_json::Value)
    ensures
        json_of(r) == session_document(*session),
{
    let members: Vec<(String, serde_json::Value)> = vec![
        (owned("kind"), text_value(session.0.kind.name())),
        (owned("containerPid"), number_value(session.0.container_pid as u64)),
        (owned("hostPid"), number_value(session.0.host_pid as u64)),
        (owned("hostTty"), text_value(session.0.host_tty.clone())),
        (owned("live"), bool_value(session.1)),
    ];
    proof {
        assert(crate::json::members_of(members@) =~= session_document(*session)->Object_0);
        reveal_strlit("kind");
        reveal_strlit("containerPid");
        reveal_strlit("hostPid");
        reveal_strlit("hostTty");
        reveal_strlit("live");
        assert("kind"@.len() == 4 && "kind"@[0] == 'k');
        assert("containerPid"@.len() == 12);
        assert("hostPid"@.len() == 7 && "hostPid"@[4] == 'P');
        assert("hostTty"@.len() == 7 && "hostTty"@[4] == 'T');
        assert("live"@.len() == 4 && "live"@[0] == 'l');
    }
    object_value(members)
}

/// A container with its sessions, as JSON.
pub open spec fn container_document(container: ContainerInfo, sessions: ContainerSessions) -> Json {
    Json::Object(
        seq![
            ("id"@, Json::Text(container.id@)),
            ("name"@, Json::Text(container.name@)),
            ("state"@, Json::Text(container.state.name_text())),
            ("image"@, Json::Text(container.image@)),
            (
                "sessions"@,
                Json::Array(listed(sessions).map_values(|s: Session| session_document(s))),
            ),
        ],
    )
}

fn session_values(sessions: &ContainerSessions) -> (r: Vec<serde_json::Value>)
    ensures
        crate::json::jsons(r@) == listed(*sessions).map_values(|s: Session| session_document(s)),
{
    let mut out: Vec<serde_json::Value> = Vec::new();
    match sessions {
        None => {
            assert(crate::json::jsons(out@) =~= listed(*sessions).map_values(
                |s: Session| session_document(s),
            ));
        },
        Some(v) => {
            let ghost docs = v@.map_values(|s: Session| session_document(s));
            let mut i: usize = 0;
            while i < v.len()
                invariant
                    docs == v@.map_values(|s: Session| session_document(s)),
                    i <= v@.len(),
                    crate::json::jsons(out@) == docs.take(i as int),
                decreases v@.len() - i,
            {
                let ghost before = crate::json::jsons(out@);
                let value = session_json(&v[i]);
                let ghost doc = json_of(value);
                out.push(value);
                i = i + 1;
                assert(crate::json::jsons(out@) =~= before.push(doc));
                assert(docs.take(i as int) =~= docs.take(i - 1).push(docs[i - 1]));
            }
            assert(docs.take(v@.len() as int) =~= docs);
        },
    }
    out
}

/// A container with its sessions, as JSON.
pub fn container_json(container: &ContainerInfo, sessions: &ContainerSessions) -> (r: serde_json::Value)
    ensures
        json_of(r) == container_document(*container, *sessions),
{
    let members: Vec<(String, serde_json::Value)> = vec![
        (owned("id"), text_value(container.id.clone())),
        (owned("name"), text_value(container.name.clone())),
        (owned("state"), text_value(container.state.name())),
        (owned("image"), text_value(container.image.clone())),
        (owned("sessions"), array_value(session_values(sessions))),
    ];
    proof {
        assert(crate::json::members_of(members@) =~= container_document(*container, *sessions)->Object_0);
        reveal_strlit("id");
        reveal_strlit("name");
        reveal_strlit("state");
        reveal_strlit("image");
        reveal_strlit("sessions");
        assert("id"@.len() == 2);
        assert("name"@.len() == 4);
        assert("state"@.len() == 5 && "state"@[0] == 's');
        assert("image"@.len() == 5 && "image"@[0] == 'i');
        assert("sessions"@.len() == 8);
    }
    object_value(members)
}

/// How many containers there are with their sessions.
pub open spec fn paired(containers: Seq<ContainerInfo>, sessions: Seq<ContainerSessions>) -> nat {
    if containers.len() <= sessions.len() {
        containers.len()
    } else {
        sessions.len()
    }
}

/// The containers with their sessions, as JSON.
pub open spec fn status_document(containers: Seq<ContainerInfo>, sessions: Seq<ContainerSessions>) -> Json {
    Json::Array(
        Seq::new(
            paired(containers, sessions),
            |i: int| container_document(containers[i], sessions[i]),
        ),
    )
}

/// The containers with their sessions, as the text of a JSON document over
/// several lines.
pub fn status_json(containers: &Vec<ContainerInfo>, sessions: &Vec<ContainerSessions>) -> (r: Result<String, String>)
    ensures
        match r {
            Ok(text) => json_pretty(status_document(containers@, sessions@)) == Ok::<Seq<char>, Seq<char>>(
                text@,
            ),
            Err(message) => json_pretty(status_document(containers@, sessions@)) == Err::<
                Seq<char>,
                Seq<char>,
            >(message@),
        },
{
    let ghost n = paired(containers@, sessions@);
    let ghost docs = Seq::new(n, |i: int| container_document(containers@[i], sessions@[i]));
    let mut items: Vec<serde_json::Value> = Vec::new();
    let mut i: usize = 0;
    while i < containers.len() && i < sessions.len()
        invariant
            n == paired(containers@, sessions@),
            docs == Seq::new(n, |i: int| container_document(containers@[i], sessions@[i])),
            i <= n,
            crate::json::jsons(items@) == docs.take(i as int),
        decreases containers@.len() - i,
    {
        let ghost before = crate::json::jsons(items@);
        let value = container_json(&containers[i], &sessions[i]);
        let ghost doc = json_of(value);
        items.push(value);
        i = i + 1;
        assert(crate::json::jsons(items@) =~= before.push(doc));
        assert(docs.take(i as int) =~= docs.take(i - 1).push(docs[i - 1]));
    }
    assert(docs.take(n as int) =~= docs);
    let all = array_value(items);
    pretty_text(&all)
}

// ---------------------------------------------------------------------------
// As a table
// ---------------------------------------------------------------------------

/// A container's row.
pub open spec fn container_line(container: ContainerInfo) -> Seq<char> {
    padded(container.name@, 30) + " "@ + padded(container.state.name_text(), 12) + " "@ + container.image@
}

fn container_row(container: &ContainerInfo) -> (r: String)
    ensures
        r@ == container_line(*container),
{
    let name = pad(container.name.as_str(), 30);
    let shown = container.state.name();
    let state = pad(shown.as_str(), 12);
    cat5(name.as_str(), " ", state.as_str(), " ", container.image.as_str())
}

/// A session's row.
pub open spec fn session_line(container_name: Seq<char>, session: Session) -> Seq<char> {
    padded(container_name, 30) + " "@ + padded(session.0.kind.name_text(), 10) + " "@ + (padded(
        session.0.host_tty@,
        10,
    ) + " "@ + if session.1 {
        "live"@
    } else {
        "orphaned"@
    })
}

fn session_row(container_name: &str, session: &Session) -> (r: String)
    ensures
        r@ == session_line(container_name@, *session),
{
    let name = pad(container_name, 30);
    let shown = session.0.kind.name();
    let kind = pad(shown.as_str(), 10);
    let tty = pad(session.0.host_tty.as_str(), 10);
    let state = if session.1 {
        "live"
    } else {
        "orphaned"
    };
    let end = crate::text::cat3(tty.as_str(), " ", state);
    cat5(name.as_str(), " ", kind.as_str(), " ", end.as_str())
}

/// The rows of the sessions of the first containers.
pub open spec fn session_lines(
    containers: Seq<ContainerInfo>,
    sessions: Seq<ContainerSessions>,
    n: nat,
) -> Seq<Seq<char>>
    decreases n,
{
    if n == 0 {
        Seq::empty()
    } else {
        let i = n - 1;
        session_lines(containers, sessions, i as nat) + listed(sessions[i]).map_values(
            |s: Session| session_line(containers[i].name@, s),
        )
    }
}

/// Some container has a session.
pub open spec fn any_session(sessions: Seq<ContainerSessions>) -> bool {
    exists|i: int| 0 <= i < sessions.len() && listed(#[trigger] sessions[i]).len() > 0
}

/// Some of these sessions lost its client.
pub open spec fn has_orphan(sessions: Seq<Session>) -> bool {
    exists|i: int| 0 <= i < sessions.len() && !(#[trigger] sessions[i]).1
}

/// Some container has a session that lost its client.
pub open spec fn any_orphan(sessions: Seq<ContainerSessions>) -> bool {
    exists|i: int| 0 <= i < sessions.len() && has_orphan(listed(#[trigger] sessions[i]))
}

/// The lines about sessions: none where there are no sessions.
pub open spec fn sessions_part(containers: Seq<ContainerInfo>, sessions: Seq<ContainerSessions>) -> Seq<Seq<char>> {
    if any_session(sessions) {
        seq![
            ""@,
            padded("CONTAINER"@, 30) + " "@ + padded("SESSION"@, 10) + " "@ + (padded("TTY"@, 10) + " STATE"@),
        ] + session_lines(containers, sessions, paired(containers, sessions)) + if any_orphan(sessions) {
            seq![""@, "Orphaned sessions are reaped by the next `dev shell`."@]
        } else {
            Seq::empty()
        }
    } else {
        Seq::empty()
    }
}

fn holds_orphan(sessions: &ContainerSessions) -> (r: bool)
    ensures
        r == has_orphan(listed(*sessions)),
{
    match sessions {
        None => false,
        Some(v) => {
            let mut i: usize = 0;
            while i < v.len()
                invariant
                    v@ == listed(*sessions),
                    i <= v@.len(),
                    forall|j: int| 0 <= j < i ==> (#[trigger] v@[j]).1,
                decreases v@.len() - i,
            {
                if !v[i].1 {
                    assert(!listed(*sessions)[i as int].1);
                    return true;
                }
                i = i + 1;
            }
            false
        },
    }
}

fn has_sessions(sessions: &ContainerSessions) -> (r: bool)
    ensures
        r == (listed(*sessions).len() > 0),
{
    match sessions {
        None => false,
        Some(v) => v.len() > 0,
    }
}

fn any_of(sessions: &Vec<ContainerSessions>) -> (r: (bool, bool))
    ensures
        r.0 == any_session(sessions@),
        r.1 == any_orphan(sessions@),
{
    let mut found: (bool, bool) = (false, false);
    let mut i: usize = 0;
    while i < sessions.len()
        invariant
            i <= sessions@.len(),
            found.0 == (exists|j: int| 0 <= j < i && listed(#[trigger] sessions@[j]).len() > 0),
            found.1 == (exists|j: int| 0 <= j < i && has_orphan(listed(#[trigger] sessions@[j]))),
        decreases sessions@.len() - i,
    {
        if has_sessions(&sessions[i]) {
            found.0 = true;
        }
        if holds_orphan(&sessions[i]) {
            found.1 = true;
        }
        i = i + 1;
    }
    found
}

/// The lines about sessions.
pub fn print_sessions(containers: &Vec<ContainerInfo>, sessions: &Vec<ContainerSessions>) -> (r: Vec<String>)
    ensures
        texts(r@) == sessions_part(containers@, sessions@),
{
    let mut out: Vec<String> = Vec::new();
    let (any, orphan) = any_of(sessions);
    if !any {
        assert(texts(out@) =~= Seq::<Seq<char>>::empty());
        return out;
    }
    let ghost n = paired(containers@, sessions@);
    let container = pad("CONTAINER", 30);
    let session = pad("SESSION", 10);
    let tty = pad("TTY", 10);
    let end = cat2(tty.as_str(), " STATE");
    let head = cat5(container.as_str(), " ", session.as_str(), " ", end.as_str());
    let ghost start = seq![""@, head@];
    out.push(owned(""));
    out.push(head);
    assert(texts(out@) =~= start + session_lines(containers@, sessions@, 0));
    let mut i: usize = 0;
    while i < containers.len() && i < sessions.len()
        invariant
            n == paired(containers@, sessions@),
            i <= n,
            texts(out@) == start + session_lines(containers@, sessions@, i as nat),
        decreases containers@.len() - i,
    {
        let ghost before = texts(out@);
        match &sessions[i] {
            None => {
                assert(listed(sessions@[i as int]).map_values(
                    |s: Session| session_line(containers@[i as int].name@, s),
                ) =~= Seq::<Seq<char>>::empty());
            },
            Some(v) => {
                let ghost rows = v@.map_values(
                    |s: Session| session_line(containers@[i as int].name@, s),
                );
                let mut j: usize = 0;
                assert(before + rows.take(0) =~= before);
                while j < v.len()
                    invariant
                        i < containers@.len(),
                        rows == v@.map_values(
                            |s: Session| session_line(containers@[i as int].name@, s),
                        ),
                        j <= v@.len(),
                        texts(out@) == before + rows.take(j as int),
                    decreases v@.len() - j,
                {
                    let ghost had = texts(out@);
                    let row = session_row(containers[i].name.as_str(), &v[j]);
                    let ghost line = row@;
                    out.push(row);
                    j = j + 1;
                    assert(texts(out@) =~= had.push(line));
                    assert(rows.take(j as int) =~= rows.take(j - 1).push(rows[j - 1]));
                }
                assert(rows.take(v@.len() as int) =~= rows);
            },
        }
        i = i + 1;
        assert(texts(out@) =~= start + session_lines(containers@, sessions@, i as nat));
    }
    if orphan {
        let ghost before = texts(out@);
        out.push(owned(""));
        out.push(owned("Orphaned sessions are reaped by the next `dev shell`."));
        assert(texts(out@) =~= before + seq![
            ""@,
            "Orphaned sessions are reaped by the next `dev shell`."@,
        ]);
    }
    assert(texts(out@) =~= sessions_part(containers@, sessions@));
    out
}

/// The lines of the whole status.
pub open spec fn status_part(containers: Seq<ContainerInfo>, sessions: Seq<ContainerSessions>) -> Seq<Seq<char>> {
    if containers.len() == 0 {
        seq![
            "No containers running for this workspace."@,
            "Use `dev up` to start a container for this workspace."@,
        ]
    } else {
        seq![padded("NAME"@, 30) + " "@ + padded("STATE"@, 12) + " IMAGE"@] + containers.map_values(
            |c: ContainerInfo| container_line(c),
        ) + sessions_part(containers, sessions)
    }
}

/// The lines of the whole status: a row for each container, then the sessions;
/// where there are no containers, how to start one.
pub fn status_lines(containers: &Vec<ContainerInfo>, sessions: &Vec<ContainerSessions>) -> (r: Vec<String>)
    ensures
        texts(r@) == status_part(containers@, sessions@),
{
    let mut out: Vec<String> = Vec::new();
    if containers.len() == 0 {
        out.push(owned("No containers running for this workspace."));
        out.push(owned("Use `dev up` to start a container for this workspace."));
        assert(texts(out@) =~= status_part(containers@, sessions@));
        return out;
    }
    let name = pad("NAME", 30);
    let state = pad("STATE", 12);
    let head = cat4(name.as_str(), " ", state.as_str(), " IMAGE");
    let ghost start = seq![head@];
    let ghost rows = containers@.map_values(|c: ContainerInfo| container_line(c));
    out.push(head);
    assert(texts(out@) =~= start + rows.take(0));
    let mut i: usize = 0;
    while i < containers.len()
        invariant
            rows == containers@.map_values(|c: ContainerInfo| container_line(c)),
            i <= containers@.len(),
            texts(out@) == start + rows.take(i as int),
        decreases containers@.len() - i,
    {
        let ghost before = texts(out@);
        let row = container_row(&containers[i]);
        let ghost line = row@;
        out.push(row);
        i = i + 1;
        assert(texts(out@) =~= before.push(line));
        assert(rows.take(i as int) =~= rows.take(i - 1).push(rows[i - 1]));
    }
    assert(rows.take(containers@.len() as int) =~= rows);
    let ghost before = texts(out@);
    let mut more = print_sessions(containers, sessions);
    let ghost added = texts(more@);
    out.append(&mut more);
    assert(texts(out@) =~= before + added);
    out
}

} // verus!

//! What `dev status` shows, in terms of the containers and the sessions it is given.
use vstd::prelude::*;

use crate::json::{json_element, json_member, Json};
use crate::model::ContainerInfo;
use crate::session::Session;
use crate::status::{
    any_orphan, any_session, container_document, container_line, evidence, has_orphan, listed, paired, session_document,
    session_line, session_lines, sessions_part, status_document, status_part, ContainerSessions,
};
use crate::text::padded;

verus! {

/// A member of an object is found by its key, where the key does not stand again behind
/// it.
pub proof fn a_member_is_found(members: Seq<(Seq<char>, Json)>, i: int)
    requires
        0 <= i < members.len(),
        forall|j: int| i < j < members.len() ==> (#[trigger] members[j]).0 != members[i].0,
    ensures
        json_member(Json::Object(members), members[i].0) == Some(members[i].1),
{
    crate::assoc::assoc_last(members, i);
}

proof fn session_keys_differ()
    ensures
        "kind"@ != "containerPid"@ && "kind"@ != "hostPid"@ && "kind"@ != "hostTty"@ && "kind"@ != "live"@,
        "containerPid"@ != "hostPid"@ && "containerPid"@ != "hostTty"@ && "containerPid"@ != "live"@,
        "hostPid"@ != "hostTty"@ && "hostPid"@ != "live"@ && "hostTty"@ != "live"@,
{
    reveal_strlit("kind");
    reveal_strlit("containerPid");
    reveal_strlit("hostPid");
    reveal_strlit("hostTty");
    reveal_strlit("live");
    assert("kind"@[0] != "live"@[0]);
    assert("hostPid"@[4] != "hostTty"@[4]);
}

/// A session's document says what it was opened for, the processes it belongs to, its
/// terminal, and whether its client is around.
pub proof fn a_session_is_told_by_its_members(session: Session)
    ensures
        ({
            let document = session_document(session);
            &&& session.0.kind is Shell ==> json_member(document, "kind"@) == Some(Json::Text("shell"@))
            &&& session.0.kind is Exec ==> json_member(document, "kind"@) == Some(Json::Text("exec"@))
            &&& json_member(document, "containerPid"@) == Some(
                Json::Number(crate::number::decimal_of(session.0.container_pid as nat)),
            )
            &&& json_member(document, "hostPid"@) == Some(
                Json::Number(crate::number::decimal_of(session.0.host_pid as nat)),
            )
            &&& json_member(document, "hostTty"@) == Some(Json::Text(session.0.host_tty@))
            &&& json_member(document, "live"@) == Some(Json::Bool(session.1))
        }),
{
    session_keys_differ();
    let members = session_document(session)->Object_0;
    a_member_is_found(members, 0);
    a_member_is_found(members, 1);
    a_member_is_found(members, 2);
    a_member_is_found(members, 3);
    a_member_is_found(members, 4);
}

/// A container's document says its id, name, state and image, and holds a document for
/// each of its sessions, in their order; a read that failed holds none.
pub proof fn a_container_is_told_by_its_members(container: ContainerInfo, sessions: ContainerSessions)
    ensures
        ({
            let document = container_document(container, sessions);
            &&& json_member(document, "id"@) == Some(Json::Text(container.id@))
            &&& json_member(document, "name"@) == Some(Json::Text(container.name@))
            &&& json_member(document, "state"@) == Some(Json::Text(container.state.name_text()))
            &&& json_member(document, "image"@) == Some(Json::Text(container.image@))
            &&& json_member(document, "sessions"@) matches Some(Json::Array(items)) && {
                &&& sessions is None ==> items.len() == 0
                &&& sessions matches Some(v) ==> items.len() == v@.len() && forall|i: int|
                    0 <= i < v@.len() ==> #[trigger] items[i] == session_document(v@[i])
            }
        }),
{
    reveal_strlit("id");
    reveal_strlit("name");
    reveal_strlit("state");
    reveal_strlit("image");
    reveal_strlit("sessions");
    assert("state"@[0] != "image"@[0]);
    assert("id"@.len() == 2 && "name"@.len() == 4 && "state"@.len() == 5 && "image"@.len() == 5);
    assert("sessions"@.len() == 8);
    let members = container_document(container, sessions)->Object_0;
    a_member_is_found(members, 0);
    a_member_is_found(members, 1);
    a_member_is_found(members, 2);
    a_member_is_found(members, 3);
    a_member_is_found(members, 4);
}

/// The status as JSON is a list with one document for each container that has a read of
/// its sessions, in their order.
pub proof fn each_container_has_its_document(
    containers: Seq<ContainerInfo>,
    sessions: Seq<ContainerSessions>,
    i: nat,
)
    ensures
        i < containers.len() && i < sessions.len() ==> json_element(status_document(containers, sessions), i) == Some(
            container_document(containers[i as int], sessions[i as int]),
        ),
        i >= containers.len() || i >= sessions.len() ==> json_element(status_document(containers, sessions), i) is None,
{
}

/// The columns of the containers' table: the name from the first place on, the state
/// from the thirty-second, and the image from the forty-fifth, where the name and the
/// state leave room for it.
pub proof fn container_columns_line_up(container: ContainerInfo)
    requires
        container.name@.len() <= 30,
        container.state.name_text().len() <= 12,
    ensures
        ({
            let line = container_line(container);
            let name = container.name@;
            let state = container.state.name_text();
            &&& line.take(name.len() as int) == name
            &&& line.subrange(31, 31int + state.len()) == state
            &&& line.skip(44) == container.image@
            &&& forall|i: int| name.len() <= i < 31 ==> #[trigger] line[i] == ' '
            &&& forall|i: int| 31 + state.len() <= i < 44 ==> #[trigger] line[i] == ' '
        }),
{
    reveal_strlit(" ");
    let line = container_line(container);
    let name = container.name@;
    let state = container.state.name_text();
    assert(line.take(name.len() as int) =~= name);
    assert(line.subrange(31, 31int + state.len()) =~= state);
    assert(line.skip(44) =~= container.image@);
}

/// The columns of the sessions' table: the container's name, what the session was opened
/// for, its terminal, and whether its client is around.
pub proof fn session_columns_line_up(name: Seq<char>, session: Session)
    requires
        name.len() <= 30,
        session.0.host_tty@.len() <= 10,
    ensures
        ({
            let line = session_line(name, session);
            let kind = if session.0.kind is Shell {
                "shell"@
            } else {
                "exec"@
            };
            let tty = session.0.host_tty@;
            &&& line.take(name.len() as int) == name
            &&& line.subrange(31, 31int + kind.len()) == kind
            &&& line.subrange(42, 42int + tty.len()) == tty
            &&& line.skip(53) == if session.1 {
                "live"@
            } else {
                "orphaned"@
            }
            &&& forall|i: int| name.len() <= i < 31 ==> #[trigger] line[i] == ' '
        }),
{
    reveal_strlit(" ");
    reveal_strlit("shell");
    reveal_strlit("exec");
    let line = session_line(name, session);
    let kind = session.0.kind.name_text();
    let tty = session.0.host_tty@;
    assert(line.take(name.len() as int) =~= name);
    assert(line.subrange(31, 31int + kind.len()) =~= kind);
    assert(line.subrange(42, 42int + tty.len()) =~= tty);
    assert(line.skip(53) =~= if session.1 {
        "live"@
    } else {
        "orphaned"@
    });
}

proof fn session_lines_hold(
    containers: Seq<ContainerInfo>,
    sessions: Seq<ContainerSessions>,
    n: nat,
    i: int,
    k: int,
)
    requires
        0 <= i < n,
        0 <= k < listed(sessions[i]).len(),
    ensures
        session_lines(containers, sessions, n).contains(session_line(containers[i].name@, listed(sessions[i])[k])),
    decreases n,
{
    let last = n - 1;
    let before = session_lines(containers, sessions, last as nat);
    let new = listed(sessions[last]).map_values(|s: Session| session_line(containers[last].name@, s));
    let line = session_line(containers[i].name@, listed(sessions[i])[k]);
    if i < last {
        session_lines_hold(containers, sessions, last as nat, i, k);
        let at = choose|at: int| 0 <= at < before.len() && before[at] == line;
        assert((before + new)[at] == line);
    } else {
        assert((before + new)[before.len() + k] == line);
    }
}

proof fn session_lines_come_from_sessions(
    containers: Seq<ContainerInfo>,
    sessions: Seq<ContainerSessions>,
    n: nat,
    at: int,
)
    requires
        0 <= at < session_lines(containers, sessions, n).len(),
    ensures
        exists|i: int, k: int|
            0 <= i < n && 0 <= k < listed(sessions[i]).len() && session_lines(containers, sessions, n)[at]
                == #[trigger] session_line(containers[i].name@, listed(sessions[i])[k]),
    decreases n,
{
    let last = n - 1;
    let before = session_lines(containers, sessions, last as nat);
    let new = listed(sessions[last]).map_values(|s: Session| session_line(containers[last].name@, s));
    if at < before.len() {
        session_lines_come_from_sessions(containers, sessions, last as nat, at);
        let (i, k) = choose|i: int, k: int|
            0 <= i < last && 0 <= k < listed(sessions[i]).len() && before[at] == #[trigger] session_line(
                containers[i].name@,
                listed(sessions[i])[k],
            );
        assert((before + new)[at] == session_line(containers[i].name@, listed(sessions[i])[k]));
    } else {
        let k = at - before.len();
        assert((before + new)[at] == session_line(containers[last].name@, listed(sessions[last])[k]));
    }
}

/// Every session of every container has its row, and every row between the head and the
/// note on orphans is one of a session.
pub proof fn every_session_has_its_row(
    containers: Seq<ContainerInfo>,
    sessions: Seq<ContainerSessions>,
    i: int,
    k: int,
    at: int,
)
    requires
        containers.len() == sessions.len(),
        0 <= i < sessions.len(),
        0 <= k < listed(sessions[i]).len(),
        0 <= at < session_lines(containers, sessions, containers.len()).len(),
    ensures
        sessions_part(containers, sessions).contains(session_line(containers[i].name@, listed(sessions[i])[k])),
        exists|j: int, l: int|
            0 <= j < containers.len() && 0 <= l < listed(sessions[j]).len() && sessions_part(containers, sessions)[at
                + 2] == #[trigger] session_line(containers[j].name@, listed(sessions[j])[l]),
{
    let n = containers.len();
    let rows = session_lines(containers, sessions, n);
    let line = session_line(containers[i].name@, listed(sessions[i])[k]);
    assert(any_session(sessions));
    session_lines_hold(containers, sessions, n, i, k);
    let r = choose|r: int| 0 <= r < rows.len() && rows[r] == line;
    assert(sessions_part(containers, sessions)[r + 2] == rows[r]);
    session_lines_come_from_sessions(containers, sessions, n, at);
    assert(sessions_part(containers, sessions)[at + 2] == rows[at]);
}

/// Sessions are spoken of exactly where some container has one: a blank line and a head
/// come first. The note on orphans stands at the end exactly where some session lost its
/// client.
pub proof fn orphans_are_pointed_out(containers: Seq<ContainerInfo>, sessions: Seq<ContainerSessions>)
    ensures
        ({
            let part = sessions_part(containers, sessions);
            let some = exists|i: int| 0 <= i < sessions.len() && listed(#[trigger] sessions[i]).len() > 0;
            let rows = session_lines(containers, sessions, paired(containers, sessions)).len();
            &&& !some ==> part.len() == 0
            &&& some ==> part.len() >= 2 && part[0] == ""@ && part[1] == padded("CONTAINER"@, 30) + " "@ + padded(
                "SESSION"@,
                10,
            ) + " "@ + (padded("TTY"@, 10) + " STATE"@)
            &&& some && (exists|i: int, k: int|
                0 <= i < sessions.len() && 0 <= k < listed(sessions[i]).len() && !(#[trigger] listed(
                    sessions[i],
                )[k]).1) ==> part.len() == rows + 4 && part.last()
                == "Orphaned sessions are reaped by the next `dev shell`."@
            &&& some && (forall|i: int, k: int|
                0 <= i < sessions.len() && 0 <= k < listed(sessions[i]).len() ==> (#[trigger] listed(
                    sessions[i],
                )[k]).1) ==> part.len() == rows + 2
        }),
{
    if exists|i: int, k: int|
        0 <= i < sessions.len() && 0 <= k < listed(sessions[i]).len() && !(#[trigger] listed(sessions[i])[k]).1 {
        let (i, k) = choose|i: int, k: int|
            0 <= i < sessions.len() && 0 <= k < listed(sessions[i]).len() && !(#[trigger] listed(sessions[i])[k]).1;
        assert(has_orphan(listed(sessions[i])));
        assert(any_orphan(sessions));
    }
    if any_orphan(sessions) {
        let i = choose|i: int| 0 <= i < sessions.len() && has_orphan(listed(#[trigger] sessions[i]));
        let all = listed(sessions[i]);
        let k = choose|k: int| 0 <= k < all.len() && !(#[trigger] all[k]).1;
        assert(!listed(sessions[i])[k].1);
    }
}

/// Each container has its row, in their order, below a head; without containers it is
/// said how to start one.
pub proof fn each_container_has_its_row(
    containers: Seq<ContainerInfo>,
    sessions: Seq<ContainerSessions>,
    i: int,
)
    ensures
        containers.len() == 0 ==> status_part(containers, sessions) == seq![
            "No containers running for this workspace."@,
            "Use `dev up` to start a container for this workspace."@,
        ],
        containers.len() > 0 ==> {
            let part = status_part(containers, sessions);
            &&& part[0] == padded("NAME"@, 30) + " "@ + padded("STATE"@, 12) + " IMAGE"@
            &&& 0 <= i < containers.len() ==> part[i + 1] == container_line(containers[i])
            &&& part.skip(containers.len() as int + 1) == sessions_part(containers, sessions)
        },
{
    if containers.len() > 0 {
        assert(status_part(containers, sessions).skip(containers.len() as int + 1) =~= sessions_part(
            containers,
            sessions,
        ));
    }
}

/// The pill is decided from the first running container's own sessions, or from the
/// failure to read them.
pub proof fn the_first_running_container_is_the_evidence(
    containers: Seq<ContainerInfo>,
    sessions: Seq<ContainerSessions>,
    k: int,
)
    requires
        containers.len() == sessions.len(),
        0 <= k < containers.len(),
        containers[k].state is Running,
        forall|j: int| 0 <= j < k ==> !((#[trigger] containers[j]).state is Running),
    ensures
        sessions[k] is None ==> evidence(containers, sessions) is None,
        sessions[k] matches Some(v) ==> evidence(containers, sessions) == Some(v@),
{
    crate::model::running_at_is(containers, k);
}

/// Looking at a workspace shows the shells that are open under the key of the shells'
/// pill, takes that pill down where there are none, and leaves it where nothing is known.
pub proof fn looking_repaints_the_shells_pill(cmux: crate::cmux::Cmux, pill: crate::shell::SessionPill)
    requires
        cmux.reachable(),
    ensures
        match pill {
            crate::shell::SessionPill::Show(value) => {
                let calls = crate::status::repainted(cmux, pill);
                &&& calls.drop_last() == cmux.made()
                &&& calls.last().len() > 2
                &&& calls.last()[0] == "set-status"@ && calls.last()[1] == "dev_shell"@ && calls.last()[2] == value@
            },
            crate::shell::SessionPill::Clear => crate::status::repainted(cmux, pill) == cmux.made().push(
                seq!["clear-status"@, "dev_shell"@],
            ),
            crate::shell::SessionPill::Leave => crate::status::repainted(cmux, pill) == cmux.made(),
        },
{
}

} // verus!

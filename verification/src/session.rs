//! The sessions that are open in a container.
use vstd::prelude::*;

use crate::text::owned;

verus! {

/// What a session was opened for.
#[derive(Clone, Copy, Debug, PartialEq, Eq, Structural)]
pub enum SessionKind {
    Shell,
    Exec,
}

impl SessionKind {
    /// The name of the kind.
    pub open spec fn name_text(&self) -> Seq<char> {
        match self {
            SessionKind::Shell => "shell"@,
            SessionKind::Exec => "exec"@,
        }
    }

    /// The name of the kind.
    pub fn name(&self) -> (r: String)
        ensures
            r@ == self.name_text(),
    {
        match self {
            SessionKind::Shell => owned("shell"),
            SessionKind::Exec => owned("exec"),
        }
    }
}

/// What a session recorded of itself in the container.
#[derive(Debug, PartialEq, Eq)]
pub struct SessionMarker {
    pub container_pid: u32,
    pub container_sid: u32,
    /// The process on the host that the session belongs to.
    pub host_pid: u32,
    pub host_start: String,
    pub kind: SessionKind,
    pub host_tty: String,
}

impl SessionMarker {
    /// The same record once more.
    pub fn copy(&self) -> (r: SessionMarker)
        ensures
            r == *self,
    {
        SessionMarker {
            container_pid: self.container_pid,
            container_sid: self.container_sid,
            host_pid: self.host_pid,
            host_start: self.host_start.clone(),
            kind: self.kind,
            host_tty: self.host_tty.clone(),
        }
    }
}

/// A session with whether its client is still around.
pub type Session = (SessionMarker, bool);

/// A shell of another client that is still around.
pub open spec fn other_live_shell(session: Session, own_host_pid: u32) -> bool {
    session.1 && session.0.kind is Shell && session.0.host_pid != own_host_pid
}

/// How many shells of other clients are live.
pub open spec fn other_live_shells(sessions: Seq<Session>, own_host_pid: u32) -> nat
    decreases sessions.len(),
{
    if sessions.len() == 0 {
        0
    } else {
        other_live_shells(sessions.drop_last(), own_host_pid) + if other_live_shell(
            sessions.last(),
            own_host_pid,
        ) {
            1nat
        } else {
            0nat
        }
    }
}

/// How many shells of other clients are live.
pub fn count_other_live_shells(sessions: &Vec<Session>, own_host_pid: u32) -> (r: usize)
    ensures
        r as nat == other_live_shells(sessions@, own_host_pid),
        r <= sessions@.len(),
{
    let mut count: usize = 0;
    let mut i: usize = 0;
    while i < sessions.len()
        invariant
            i <= sessions@.len(),
            count <= i,
            count as nat == other_live_shells(sessions@.take(i as int), own_host_pid),
        decreases sessions@.len() - i,
    {
        proof {
            assert(sessions@.take(i + 1).drop_last() =~= sessions@.take(i as int));
            assert(sessions@.take(i + 1).last() == sessions@[i as int]);
        }
        let shell = match sessions[i].0.kind {
            SessionKind::Shell => true,
            SessionKind::Exec => false,
        };
        if sessions[i].1 && shell && sessions[i].0.host_pid != own_host_pid {
            count = count + 1;
        }
        i = i + 1;
    }
    assert(sessions@.take(sessions@.len() as int) =~= sessions@);
    count
}

/// The same sessions once more.
pub fn copy_sessions(sessions: &Vec<Session>) -> (r: Vec<Session>)
    ensures
        r@ == sessions@,
{
    let mut out: Vec<Session> = Vec::new();
    let mut i: usize = 0;
    while i < sessions.len()
        invariant
            i <= sessions@.len(),
            out@ == sessions@.take(i as int),
        decreases sessions@.len() - i,
    {
        out.push((sessions[i].0.copy(), sessions[i].1));
        i = i + 1;
        assert(out@ =~= sessions@.take(i as int));
    }
    assert(out@ =~= sessions@);
    out
}

/// The shells that are counted are those that are around and belong to another client;
/// each counts once, and nothing else does.
pub proof fn each_other_live_shell_counts_once(sessions: Seq<Session>, more: Seq<Session>, one: Session, own: u32)
    ensures
        other_live_shells(sessions + more, own) == other_live_shells(sessions, own) + other_live_shells(more, own),
        other_live_shells(seq![one], own) == if one.1 && one.0.kind is Shell && one.0.host_pid != own {
            1nat
        } else {
            0nat
        },
        other_live_shells(Seq::empty(), own) == 0,
    decreases more.len(),
{
    let alone = seq![one];
    assert(alone.drop_last() =~= Seq::empty());
    assert(other_live_shells(alone.drop_last(), own) == 0);
    if more.len() > 0 {
        each_other_live_shell_counts_once(sessions, more.drop_last(), one, own);
        assert((sessions + more).drop_last() =~= sessions + more.drop_last());
        assert((sessions + more).last() == more.last());
    } else {
        assert(sessions + more =~= sessions);
    }
}

/// Shells and commands are told apart by their names.
pub proof fn kinds_are_named()
    ensures
        SessionKind::Shell.name_text() == "shell"@,
        SessionKind::Exec.name_text() == "exec"@,
{
}

} // verus!

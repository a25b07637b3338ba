//! The worker that runs the calls, one after the other.
use vstd::prelude::*;

use crate::text::{owned, texts};

verus! {

/// How long a call may take, in nanoseconds.
pub const CALL_TIMEOUT: u64 = 1_000_000_000;

/// How often a call is looked after, in nanoseconds.
pub const POLL_INTERVAL: u64 = 10_000_000;

/// The longest that a command waits at its end for its calls, in nanoseconds.
pub const FLUSH_CEILING: u64 = 4_000_000_000;

/// What starting the calls may cost on top, in nanoseconds.
pub const FLUSH_SLACK: u64 = 100_000_000;

/// The time for the ping and every call still waiting, up to the ceiling.
pub open spec fn budget(pending_calls: nat) -> int {
    let wanted = CALL_TIMEOUT * (pending_calls + 1) + FLUSH_SLACK;
    if wanted <= FLUSH_CEILING {
        wanted
    } else {
        FLUSH_CEILING as int
    }
}

/// How long a command waits at its end: time for the ping and every call still
/// waiting, up to the ceiling.
pub fn flush_budget(pending_calls: usize) -> (r: u64)
    ensures
        r == budget(pending_calls as nat),
{
    if pending_calls >= 3 {
        return FLUSH_CEILING;
    }
    let calls: u64 = pending_calls as u64;
    CALL_TIMEOUT * (calls + 1) + FLUSH_SLACK
}

/// The wait grows with the calls that are waiting and never passes the ceiling;
/// below it, it covers the ping and each of the calls.
pub proof fn budget_covers_the_calls(a: nat, b: nat)
    requires
        a <= b,
    ensures
        budget(a) <= budget(b) <= FLUSH_CEILING,
        budget(a) < FLUSH_CEILING ==> budget(a) >= CALL_TIMEOUT * (a + 1),
{
}

/// What the worker is handed.
#[derive(Debug, PartialEq, Eq)]
pub enum Job<A> {
    Call(Vec<String>),
    /// To be acknowledged once every earlier job is done.
    Fence(A),
}

/// What the worker does about a job.
#[derive(Debug, PartialEq, Eq)]
pub enum WorkStep<A> {
    /// Ping first; this call waits for the answer.
    Ping(Vec<String>),
    /// Run the call; it is no longer pending then.
    Run(Vec<String>),
    /// Let the call go; it is no longer pending then.
    Discard,
    Acknowledge(A),
}

/// The worker: whether cmux answered its ping, once it was asked.
pub struct Worker {
    reachable: Option<bool>,
}

impl Worker {
    /// What the ping said, once it was sent.
    pub closed spec fn answered(&self) -> Option<bool> {
        self.reachable
    }

    /// A worker that has asked nothing yet.
    pub fn new() -> (r: Self)
        ensures
            r.answered() is None,
    {
        Worker { reachable: None }
    }

    /// What is done about a job. The first call is preceded by the ping; once
    /// the ping failed, every call is let go. A fence is acknowledged either
    /// way.
    pub fn take<A>(&self, job: Job<A>) -> (r: WorkStep<A>)
        ensures
            r == (match job {
                Job::Fence(ack) => WorkStep::Acknowledge(ack),
                Job::Call(args) => match self.answered() {
                    None => WorkStep::Ping(args),
                    Some(true) => WorkStep::Run(args),
                    Some(false) => WorkStep::Discard,
                },
            }),
    {
        match job {
            Job::Fence(ack) => WorkStep::Acknowledge(ack),
            Job::Call(args) => match self.reachable {
                None => WorkStep::Ping(args),
                Some(true) => WorkStep::Run(args),
                Some(false) => WorkStep::Discard,
            },
        }
    }

    /// Take the ping's answer, and say what is done about the call that waited
    /// for it.
    pub fn pinged<A>(&mut self, answered: bool, args: Vec<String>) -> (r: WorkStep<A>)
        requires
            old(self).answered() is None,
        ensures
            final(self).answered() == Some(answered),
            r == (if answered {
                WorkStep::<A>::Run(args)
            } else {
                WorkStep::<A>::Discard
            }),
    {
        self.reachable = Some(answered);
        if answered {
            WorkStep::Run(args)
        } else {
            WorkStep::Discard
        }
    }
}

/// The arguments of the ping.
pub fn ping_args() -> (r: Vec<String>)
    ensures
        texts(r@) == seq!["ping"@],
{
    let v: Vec<String> = vec![owned("ping")];
    assert(texts(v@) =~= seq!["ping"@]);
    v
}

// ---------------------------------------------------------------------------
// What holds of every queue
// ---------------------------------------------------------------------------

/// Something the worker did.
#[derive(Debug, PartialEq, Eq)]
pub enum Deed<A> {
    /// It ran cmux with these arguments, and waited for it.
    Spawn(Vec<String>),
    /// It was done with a call: one fewer is pending.
    Settle,
    Acknowledge(A),
}

/// Something the worker did, with the arguments as text.
pub enum Did<A> {
    Spawn(Seq<Seq<char>>),
    Settle,
    Acknowledge(A),
}

/// What a deed is.
pub open spec fn did<A>(deed: Deed<A>) -> Did<A> {
    match deed {
        Deed::Spawn(args) => Did::Spawn(texts(args@)),
        Deed::Settle => Did::Settle,
        Deed::Acknowledge(ack) => Did::Acknowledge(ack),
    }
}

/// What a series of deeds is.
pub open spec fn all_did<A>(deeds: Seq<Deed<A>>) -> Seq<Did<A>> {
    deeds.map_values(|d: Deed<A>| did(d))
}

/// Some job is a call.
pub open spec fn any_call<A>(jobs: Seq<Job<A>>) -> bool
    decreases jobs.len(),
{
    jobs.len() > 0 && (jobs.last() is Call || any_call(jobs.drop_last()))
}

/// Everything that is done for a queue of jobs, given what the ping says. The
/// ping goes before the first call; a call is run where the ping was answered,
/// and settled either way; a fence is acknowledged.
pub open spec fn worked<A>(jobs: Seq<Job<A>>, ping: bool) -> Seq<Did<A>>
    decreases jobs.len(),
{
    if jobs.len() == 0 {
        Seq::empty()
    } else {
        let rest = jobs.drop_last();
        let before = worked(rest, ping);
        match jobs.last() {
            Job::Fence(ack) => before.push(Did::Acknowledge(ack)),
            Job::Call(args) => {
                let asked = if any_call(rest) {
                    before
                } else {
                    before.push(Did::Spawn(seq!["ping"@]))
                };
                if ping {
                    asked.push(Did::Spawn(texts(args@))).push(Did::Settle)
                } else {
                    asked.push(Did::Settle)
                }
            },
        }
    }
}

/// The arguments of the programs that were run, in order.
pub open spec fn spawns<A>(deeds: Seq<Did<A>>) -> Seq<Seq<Seq<char>>>
    decreases deeds.len(),
{
    if deeds.len() == 0 {
        Seq::empty()
    } else {
        match deeds.last() {
            Did::Spawn(args) => spawns(deeds.drop_last()).push(args),
            _ => spawns(deeds.drop_last()),
        }
    }
}

/// How many calls were settled.
pub open spec fn settled<A>(deeds: Seq<Did<A>>) -> nat
    decreases deeds.len(),
{
    if deeds.len() == 0 {
        0
    } else if deeds.last() is Settle {
        settled(deeds.drop_last()) + 1
    } else {
        settled(deeds.drop_last())
    }
}

/// What was acknowledged, in order.
pub open spec fn acknowledged<A>(deeds: Seq<Did<A>>) -> Seq<A>
    decreases deeds.len(),
{
    if deeds.len() == 0 {
        Seq::empty()
    } else {
        match deeds.last() {
            Did::Acknowledge(ack) => acknowledged(deeds.drop_last()).push(ack),
            _ => acknowledged(deeds.drop_last()),
        }
    }
}

/// The calls of a queue, in order.
pub open spec fn calls_of<A>(jobs: Seq<Job<A>>) -> Seq<Seq<Seq<char>>>
    decreases jobs.len(),
{
    if jobs.len() == 0 {
        Seq::empty()
    } else {
        match jobs.last() {
            Job::Fence(_) => calls_of(jobs.drop_last()),
            Job::Call(args) => calls_of(jobs.drop_last()).push(texts(args@)),
        }
    }
}

/// The fences of a queue, in order.
pub open spec fn fences_of<A>(jobs: Seq<Job<A>>) -> Seq<A>
    decreases jobs.len(),
{
    if jobs.len() == 0 {
        Seq::empty()
    } else {
        match jobs.last() {
            Job::Fence(ack) => fences_of(jobs.drop_last()).push(ack),
            Job::Call(_) => fences_of(jobs.drop_last()),
        }
    }
}

/// What the worker knows after a queue of jobs, given what the ping says.
pub open spec fn known_after<A>(jobs: Seq<Job<A>>, ping: bool) -> Option<bool> {
    if any_call(jobs) {
        Some(ping)
    } else {
        None
    }
}

proof fn one_more<A>(deeds: Seq<Did<A>>, deed: Did<A>)
    ensures
        spawns(deeds.push(deed)) == match deed {
            Did::Spawn(args) => spawns(deeds).push(args),
            _ => spawns(deeds),
        },
        settled(deeds.push(deed)) == settled(deeds) + if deed is Settle {
            1nat
        } else {
            0nat
        },
        acknowledged(deeds.push(deed)) == match deed {
            Did::Acknowledge(ack) => acknowledged(deeds).push(ack),
            _ => acknowledged(deeds),
        },
{
    assert(deeds.push(deed).drop_last() == deeds);
}

/// What one more job adds to what was run, settled and acknowledged.
proof fn one_more_job<A>(jobs: Seq<Job<A>>, ping: bool)
    requires
        jobs.len() > 0,
    ensures
        ({
            let rest = jobs.drop_last();
            let before = worked(rest, ping);
            let now = worked(jobs, ping);
            match jobs.last() {
                Job::Fence(ack) => {
                    &&& spawns(now) == spawns(before)
                    &&& settled(now) == settled(before)
                    &&& acknowledged(now) == acknowledged(before).push(ack)
                },
                Job::Call(args) => {
                    let asked = if any_call(rest) {
                        spawns(before)
                    } else {
                        spawns(before).push(seq!["ping"@])
                    };
                    &&& spawns(now) == if ping {
                        asked.push(texts(args@))
                    } else {
                        asked
                    }
                    &&& settled(now) == settled(before) + 1
                    &&& acknowledged(now) == acknowledged(before)
                },
            }
        }),
        worked(jobs.drop_last(), ping).is_prefix_of(worked(jobs, ping)),
{
    let rest = jobs.drop_last();
    let before = worked(rest, ping);
    match jobs.last() {
        Job::Fence(ack) => {
            one_more(before, Did::Acknowledge(ack));
        },
        Job::Call(args) => {
            one_more(before, Did::Spawn(seq!["ping"@]));
            let asked = if any_call(rest) {
                before
            } else {
                before.push(Did::Spawn(seq!["ping"@]))
            };
            one_more(asked, Did::Spawn(texts(args@)));
            one_more(asked.push(Did::Spawn(texts(args@))), Did::Settle);
            one_more(asked, Did::Settle);
        },
    }
}

/// The worker pings once, before the first call, and only if there is one. If
/// the ping is answered, every call follows in order; if not, none does.
pub proof fn one_ping_then_every_call_or_none<A>(jobs: Seq<Job<A>>, ping: bool)
    ensures
        spawns(worked(jobs, ping)) == if !any_call(jobs) {
            Seq::<Seq<Seq<char>>>::empty()
        } else if ping {
            seq![seq!["ping"@]] + calls_of(jobs)
        } else {
            seq![seq!["ping"@]]
        },
        !any_call(jobs) ==> calls_of(jobs).len() == 0,
    decreases jobs.len(),
{
    if jobs.len() > 0 {
        let rest = jobs.drop_last();
        one_ping_then_every_call_or_none(rest, ping);
        one_more_job(jobs, ping);
        match jobs.last() {
            Job::Fence(_) => {},
            Job::Call(args) => {
                if any_call(rest) {
                    if ping {
                        assert((seq![seq!["ping"@]] + calls_of(rest)).push(texts(args@)) == seq![
                            seq!["ping"@],
                        ] + calls_of(rest).push(texts(args@)));
                    }
                } else {
                    assert(calls_of(rest) == Seq::<Seq<Seq<char>>>::empty());
                    assert(spawns(worked(rest, ping)).push(seq!["ping"@]) == seq![seq!["ping"@]]);
                    if ping {
                        assert(seq![seq!["ping"@]].push(texts(args@)) == seq![seq!["ping"@]]
                            + Seq::<Seq<Seq<char>>>::empty().push(texts(args@)));
                    }
                }
            },
        }
    }
}

/// Whatever the ping says, every call is settled once and every fence
/// acknowledged once, in order.
pub proof fn every_call_is_settled_and_every_fence_acknowledged<A>(jobs: Seq<Job<A>>, ping: bool)
    ensures
        settled(worked(jobs, ping)) == calls_of(jobs).len(),
        acknowledged(worked(jobs, ping)) == fences_of(jobs),
    decreases jobs.len(),
{
    if jobs.len() > 0 {
        every_call_is_settled_and_every_fence_acknowledged(jobs.drop_last(), ping);
        one_more_job(jobs, ping);
    }
}

proof fn earlier_jobs_come_first<A>(jobs: Seq<Job<A>>, ping: bool, i: int)
    requires
        0 <= i <= jobs.len(),
    ensures
        worked(jobs.take(i), ping).is_prefix_of(worked(jobs, ping)),
    decreases jobs.len(),
{
    if i == jobs.len() {
        assert(jobs.take(i) == jobs);
    } else {
        let rest = jobs.drop_last();
        earlier_jobs_come_first(rest, ping, i);
        one_more_job(jobs, ping);
        assert(rest.take(i) == jobs.take(i));
    }
}

/// A fence is acknowledged after everything that is done for the jobs ahead of
/// it and before anything that is done for those behind it: with every call
/// ahead of it settled, and no other.
pub proof fn a_fence_waits_for_the_jobs_ahead<A>(jobs: Seq<Job<A>>, ping: bool, i: int, ack: A)
    requires
        0 <= i < jobs.len(),
        jobs[i] == Job::Fence(ack),
    ensures
        ({
            let done = worked(jobs.take(i), ping);
            &&& done.len() < worked(jobs, ping).len()
            &&& worked(jobs, ping).take(done.len() as int) == done
            &&& worked(jobs, ping)[done.len() as int] == Did::Acknowledge(ack)
            &&& settled(done) == calls_of(jobs.take(i)).len()
            &&& acknowledged(done) == fences_of(jobs.take(i))
        }),
{
    let done = worked(jobs.take(i), ping);
    let to_it = jobs.take(i + 1);
    assert(to_it.drop_last() == jobs.take(i));
    assert(to_it.last() == jobs[i]);
    assert(worked(to_it, ping) == done.push(Did::Acknowledge(ack)));
    earlier_jobs_come_first(jobs, ping, i + 1);
    assert(worked(to_it, ping)[done.len() as int] == Did::Acknowledge(ack));
    every_call_is_settled_and_every_fence_acknowledged(jobs.take(i), ping);
}

/// Run a queue of jobs to its end, given what the ping says: everything that is
/// done for it.
pub fn drain<A>(jobs: Vec<Job<A>>, ping: bool) -> (r: Vec<Deed<A>>)
    ensures
        all_did(r@) == worked(jobs@, ping),
{
    let ghost all = jobs@;
    let mut worker = Worker::new();
    let mut out: Vec<Deed<A>> = Vec::new();
    assert(all_did(out@) == worked(all.take(0), ping));
    for job in it: jobs.into_iter()
        invariant
            it.seq() == all,
            worker.answered() == known_after(all.take(it.index() as int), ping),
            all_did(out@) == worked(all.take(it.index() as int), ping),
    {
        let ghost i = it.index() as int;
        let ghost had = all_did(out@);
        proof {
            assert(all.take(i + 1).drop_last() == all.take(i));
            assert(all.take(i + 1).last() == job);
        }
        match worker.take(job) {
            WorkStep::Acknowledge(ack) => {
                out.push(Deed::Acknowledge(ack));
                assert(all_did(out@) == had.push(Did::Acknowledge(ack)));
            },
            WorkStep::Ping(args) => {
                let ping_call = ping_args();
                out.push(Deed::Spawn(ping_call));
                let ghost asked = had.push(Did::Spawn(seq!["ping"@]));
                assert(all_did(out@) == asked);
                match worker.pinged::<A>(ping, args) {
                    WorkStep::Run(args) => {
                        let ghost text = texts(args@);
                        out.push(Deed::Spawn(args));
                        assert(all_did(out@) == asked.push(Did::Spawn(text)));
                        out.push(Deed::Settle);
                        assert(all_did(out@) == asked.push(Did::Spawn(text)).push(Did::Settle));
                    },
                    _ => {
                        out.push(Deed::Settle);
                        assert(all_did(out@) == asked.push(Did::Settle));
                    },
                }
            },
            WorkStep::Run(args) => {
                let ghost text = texts(args@);
                out.push(Deed::Spawn(args));
                assert(all_did(out@) == had.push(Did::Spawn(text)));
                out.push(Deed::Settle);
                assert(all_did(out@) == had.push(Did::Spawn(text)).push(Did::Settle));
            },
            WorkStep::Discard => {
                out.push(Deed::Settle);
                assert(all_did(out@) == had.push(Did::Settle));
            },
        }
    }
    assert(all.take(all.len() as int) == all);
    out
}

/// The wait in nanoseconds: a second for the ping and one for each call that waits, and a
/// tenth of a second more, as long as that is no more than four seconds.
pub proof fn the_wait_in_nanoseconds(pending: nat)
    ensures
        pending <= 2 ==> budget(pending) == 1_000_000_000 * (pending + 1) + 100_000_000,
        pending >= 3 ==> budget(pending) == 4_000_000_000,
        CALL_TIMEOUT == 1_000_000_000,
        POLL_INTERVAL == 10_000_000,
{
}

/// There is a call among the jobs exactly where one of them is a call.
pub proof fn a_call_is_one_of_the_jobs<A>(jobs: Seq<Job<A>>)
    ensures
        any_call(jobs) <==> exists|i: int| 0 <= i < jobs.len() && #[trigger] jobs[i] is Call,
    decreases jobs.len(),
{
    if jobs.len() > 0 {
        let rest = jobs.drop_last();
        a_call_is_one_of_the_jobs(rest);
        if any_call(rest) {
            let i = choose|i: int| 0 <= i < rest.len() && #[trigger] rest[i] is Call;
            assert(jobs[i] is Call);
        }
        if jobs.last() is Call {
            assert(jobs[jobs.len() - 1] is Call);
        }
        if exists|i: int| 0 <= i < jobs.len() && #[trigger] jobs[i] is Call {
            let i = choose|i: int| 0 <= i < jobs.len() && #[trigger] jobs[i] is Call;
            if i < rest.len() {
                assert(rest[i] is Call);
            }
        }
    }
}

} // verus!

//! What the live checks say, for every outcome.
use vstd::prelude::*;

use crate::model::ExecResult;
use crate::status_runtime::checks::{
    address_like, address_on, dind_row, dind_version, first_on, found_in, getent_address, host_alias_row,
    liveness_row, mechanism, ping_row, probe_outcome, relay_skipped, ssh_add_of, ssh_first, ssh_verdict,
    version_like, version_on, with_line, CheckStatus, ProbeOutcome, RowView, SshAddStatus, SshView,
};
use crate::text::{begins_with, lines_of, trimmed, words};

verus! {

/// The first line that has something to offer decides, and every line is asked.
pub proof fn the_first_offer_is_taken(
    all: Seq<Seq<char>>,
    f: spec_fn(Seq<char>) -> Option<Seq<char>>,
)
    ensures
        first_on(all, f) is None <==> forall|i: int| 0 <= i < all.len() ==> f(#[trigger] all[i]) is None,
        first_on(all, f) is Some ==> exists|i: int|
            0 <= i < all.len() && f(#[trigger] all[i]) == first_on(all, f) && forall|j: int|
                0 <= j < i ==> f(#[trigger] all[j]) is None,
    decreases all.len(),
{
    if all.len() > 0 {
        let rest = all.drop_first();
        the_first_offer_is_taken(rest, f);
        if f(all[0]) is None {
            assert forall|i: int| 0 <= i < rest.len() implies rest[i] == all[i + 1] by {}
            if first_on(rest, f) is Some {
                let i = choose|i: int|
                    0 <= i < rest.len() && f(#[trigger] rest[i]) == first_on(rest, f) && forall|j: int|
                        0 <= j < i ==> f(#[trigger] rest[j]) is None;
                assert(f(all[i + 1]) == first_on(all, f));
                assert forall|j: int| 0 <= j < i + 1 implies f(#[trigger] all[j]) is None by {
                    if j > 0 {
                        assert(rest[j - 1] == all[j]);
                    }
                }
            } else {
                assert forall|i: int| 0 <= i < all.len() implies f(#[trigger] all[i]) is None by {
                    if i > 0 {
                        assert(rest[i - 1] == all[i]);
                    }
                }
            }
            if forall|i: int| 0 <= i < all.len() ==> f(#[trigger] all[i]) is None {
                assert forall|i: int| 0 <= i < rest.len() implies f(#[trigger] rest[i]) is None by {
                    assert(rest[i] == all[i + 1]);
                }
            }
        } else {
            assert(f(all[0]) == first_on(all, f));
        }
    }
}

// ---------------------------------------------------------------------------
// The host alias
// ---------------------------------------------------------------------------

/// A word that can be a network address: digits, the letters of a hexadecimal
/// number, dots, colons and percent signs.
pub open spec fn is_address(word: Seq<char>) -> bool {
    forall|i: int|
        0 <= i < word.len() ==> ('0' <= #[trigger] word[i] <= '9' || word[i] == 'a' || word[i] == 'b' || word[i] == 'c'
            || word[i] == 'd' || word[i] == 'e' || word[i] == 'f' || word[i] == 'A' || word[i] == 'B' || word[i] == 'C'
            || word[i] == 'D' || word[i] == 'E' || word[i] == 'F' || word[i] == '.' || word[i] == ':' || word[i] == '%')
}

/// The line opens with an address and names the alias behind it.
pub open spec fn resolves(line: Seq<char>, alias: Seq<char>) -> bool {
    words(line).len() > 0 && is_address(words(line)[0]) && exists|k: int|
        1 <= k < words(line).len() && #[trigger] words(line)[k] == alias
}

proof fn addresses_are_addresses(word: Seq<char>)
    ensures
        address_like(word) == is_address(word),
{
    if is_address(word) {
        assert forall|i: int| 0 <= i < word.len() implies crate::status_runtime::checks::address_char(
            #[trigger] word[i],
        ) by {}
    }
    if address_like(word) {
        assert forall|i: int| 0 <= i < word.len() implies ('0' <= #[trigger] word[i] <= '9' || word[i] == 'a'
            || word[i] == 'b' || word[i] == 'c' || word[i] == 'd' || word[i] == 'e' || word[i] == 'f' || word[i] == 'A'
            || word[i] == 'B' || word[i] == 'C' || word[i] == 'D' || word[i] == 'E' || word[i] == 'F' || word[i] == '.'
            || word[i] == ':' || word[i] == '%') by {
            assert(crate::status_runtime::checks::address_char(word[i]));
        }
    }
}

proof fn addresses_stand_on_resolving_lines(line: Seq<char>, alias: Seq<char>)
    ensures
        address_on(line, alias) == if resolves(line, alias) {
            Some(words(line)[0])
        } else {
            None
        },
{
    let tokens = words(line);
    if tokens.len() > 0 {
        addresses_are_addresses(tokens[0]);
        let rest = tokens.drop_first();
        if rest.contains(alias) {
            let k = choose|k: int| 0 <= k < rest.len() && rest[k] == alias;
            assert(tokens[k + 1] == alias);
        }
        if exists|k: int| 1 <= k < tokens.len() && #[trigger] tokens[k] == alias {
            let k = choose|k: int| 1 <= k < tokens.len() && #[trigger] tokens[k] == alias;
            assert(rest[k - 1] == alias);
        }
    }
}

/// The alias is reported as resolved exactly when the command succeeded and some
/// line of what it printed opens with an address and names the alias; the address
/// is the one on the first such line.
pub proof fn an_alias_resolves_only_to_an_address(outcome: ProbeOutcome, alias: Seq<char>)
    ensures
        host_alias_row(outcome, alias).name == "host alias"@,
        host_alias_row(outcome, alias).status is Passed <==> (outcome matches ProbeOutcome::Ran(result)
            && result.exit_code == 0 && exists|i: int|
            0 <= i < lines_of(result.stdout@).len() && resolves(#[trigger] lines_of(result.stdout@)[i], alias)),
        host_alias_row(outcome, alias).status is Passed ==> exists|i: int|
            {
                &&& 0 <= i < lines_of(outcome->Ran_0.stdout@).len()
                &&& resolves(#[trigger] lines_of(outcome->Ran_0.stdout@)[i], alias)
                &&& host_alias_row(outcome, alias).detail == "resolves to "@ + words(
                    lines_of(outcome->Ran_0.stdout@)[i],
                )[0]
                &&& forall|j: int|
                    0 <= j < i ==> !resolves(#[trigger] lines_of(outcome->Ran_0.stdout@)[j], alias)
            },
{
    if let ProbeOutcome::Ran(result) = outcome {
        let all = lines_of(result.stdout@);
        let f = |line: Seq<char>| address_on(line, alias);
        the_first_offer_is_taken(all, f);
        assert forall|i: int| 0 <= i < all.len() implies (f(#[trigger] all[i]) is Some <==> resolves(all[i], alias))
            && (resolves(all[i], alias) ==> f(all[i]) == Some(words(all[i])[0])) by {
            addresses_stand_on_resolving_lines(all[i], alias);
        }
        assert(getent_address(result.stdout@, alias) == first_on(all, f));
        if first_on(all, f) is Some {
            let i = choose|i: int|
                0 <= i < all.len() && f(#[trigger] all[i]) == first_on(all, f) && forall|j: int|
                    0 <= j < i ==> f(#[trigger] all[j]) is None;
            assert(resolves(all[i], alias));
        }
        if exists|i: int| 0 <= i < all.len() && resolves(#[trigger] all[i], alias) {
            let i = choose|i: int| 0 <= i < all.len() && resolves(#[trigger] all[i], alias);
            assert(f(all[i]) is Some);
        }
    }
}

/// An alias that could not be asked for is skipped only where the container has no
/// command to ask with. Whatever else happened is a failure that says so: another
/// status, no address, a refusal, or no exit in time.
pub proof fn an_alias_that_does_not_resolve_is_a_failure(outcome: ProbeOutcome, alias: Seq<char>)
    ensures
        ({
            let row = host_alias_row(outcome, alias);
            match outcome {
                ProbeOutcome::MissingCommand(_) => row.status is Skipped && row.detail
                    == "no getent in this container"@ && row.remediation is None,
                ProbeOutcome::Refused(detail) => row.status is Failed && row.detail == detail@,
                ProbeOutcome::TimedOut(seconds) => row.status is Failed && row.detail
                    == "it did not report an exit within "@ + seconds@ + "s"@,
                ProbeOutcome::Ran(result) => if result.exit_code != 0 {
                    row.status is Failed && row.detail == "could not resolve `"@ + alias + "`"@
                } else {
                    row.status is Passed || row.status is Failed && row.detail == "`getent hosts "@ + alias
                        + "` printed no address"@
                },
            }
        }),
        host_alias_row(outcome, alias).status is Failed ==> host_alias_row(outcome, alias).remediation == Some(
            "The host alias `"@ + alias
                + "` did not resolve inside the container.\n\n  Recreate the container so the alias is written again: `dev down && dev up`\n\nThen try `dev status` again."@,
        ),
{
}

// ---------------------------------------------------------------------------
// The ssh agent
// ---------------------------------------------------------------------------

/// What the probe prints is read back: each fact is on the last line that carries
/// its mark.
pub proof fn the_last_line_with_a_mark_decides(all: Seq<Seq<char>>, k: int, value: Seq<char>)
    requires
        0 <= k < all.len(),
    ensures
        all[k] == "UPSTREAM:"@ + value && (forall|j: int|
            k < j < all.len() ==> !begins_with(#[trigger] all[j], "UPSTREAM:"@)) ==> found_in(all).upstream == value,
        all[k] == "AUTHSOCK:"@ + value && (forall|j: int|
            k < j < all.len() ==> !begins_with(#[trigger] all[j], "AUTHSOCK:"@)) ==> found_in(all).auth_sock == value,
        all[k] == "SHIM:"@ + value && (forall|j: int|
            k < j < all.len() ==> !begins_with(#[trigger] all[j], "SHIM:"@)) ==> found_in(all).shim_executable == (
        value == "yes"@),
        all[k] == "SOCKET:"@ + value && (forall|j: int|
            k < j < all.len() ==> !begins_with(#[trigger] all[j], "SOCKET:"@)) ==> found_in(all).socket_is_socket == (
        value == "yes"@),
        all[k] == "SSHADD:"@ + value && (forall|j: int|
            k < j < all.len() ==> !begins_with(#[trigger] all[j], "SSHADD:"@)) ==> found_in(all).ssh_add
            == ssh_add_of(value),
    decreases all.len(),
{
    marks_differ(all.last());
    if k == all.len() - 1 {
        marked_lines_are_read(found_in(all.drop_last()), value);
    } else {
        let rest = all.drop_last();
        the_last_line_with_a_mark_decides(rest, k, value);
        assert(rest[k] == all[k]);
        assert(all.last() == all[all.len() - 1]);
        assert forall|j: int| k < j < rest.len() implies rest[j] == all[j] by {}
    }
}

proof fn marked_lines_are_read(found: SshView, value: Seq<char>)
    ensures
        with_line(found, "UPSTREAM:"@ + value) == (SshView { upstream: value, ..found }),
        with_line(found, "AUTHSOCK:"@ + value) == (SshView { auth_sock: value, ..found }),
        with_line(found, "SHIM:"@ + value) == (SshView { shim_executable: value == "yes"@, ..found }),
        with_line(found, "SOCKET:"@ + value) == (SshView { socket_is_socket: value == "yes"@, ..found }),
        with_line(found, "SSHADD:"@ + value) == (SshView { ssh_add: ssh_add_of(value), ..found }),
{
    reveal_strlit("UPSTREAM:");
    reveal_strlit("AUTHSOCK:");
    reveal_strlit("SHIM:");
    reveal_strlit("SOCKET:");
    reveal_strlit("SSHADD:");
    marks_differ("UPSTREAM:"@ + value);
    marks_differ("AUTHSOCK:"@ + value);
    marks_differ("SHIM:"@ + value);
    marks_differ("SOCKET:"@ + value);
    marks_differ("SSHADD:"@ + value);
    assert(("UPSTREAM:"@ + value).take("UPSTREAM:"@.len() as int) =~= "UPSTREAM:"@);
    assert(("AUTHSOCK:"@ + value).take("AUTHSOCK:"@.len() as int) =~= "AUTHSOCK:"@);
    assert(("SHIM:"@ + value).take("SHIM:"@.len() as int) =~= "SHIM:"@);
    assert(("SOCKET:"@ + value).take("SOCKET:"@.len() as int) =~= "SOCKET:"@);
    assert(("SSHADD:"@ + value).take("SSHADD:"@.len() as int) =~= "SSHADD:"@);
    assert(("UPSTREAM:"@ + value).skip("UPSTREAM:"@.len() as int) =~= value);
    assert(("AUTHSOCK:"@ + value).skip("AUTHSOCK:"@.len() as int) =~= value);
    assert(("SHIM:"@ + value).skip("SHIM:"@.len() as int) =~= value);
    assert(("SOCKET:"@ + value).skip("SOCKET:"@.len() as int) =~= value);
    assert(("SSHADD:"@ + value).skip("SSHADD:"@.len() as int) =~= value);
}

/// No line carries two marks.
proof fn marks_differ(line: Seq<char>)
    ensures
        begins_with(line, "UPSTREAM:"@) ==> line[0] == 'U',
        begins_with(line, "AUTHSOCK:"@) ==> line[0] == 'A',
        begins_with(line, "SHIM:"@) ==> line[0] == 'S' && line[1] == 'H',
        begins_with(line, "SOCKET:"@) ==> line[0] == 'S' && line[1] == 'O',
        begins_with(line, "SSHADD:"@) ==> line[0] == 'S' && line[1] == 'S',
{
    reveal_strlit("UPSTREAM:");
    reveal_strlit("AUTHSOCK:");
    reveal_strlit("SHIM:");
    reveal_strlit("SOCKET:");
    reveal_strlit("SSHADD:");
    if begins_with(line, "UPSTREAM:"@) {
        assert(line.take("UPSTREAM:"@.len() as int)[0] == line[0]);
    }
    if begins_with(line, "AUTHSOCK:"@) {
        assert(line.take("AUTHSOCK:"@.len() as int)[0] == line[0]);
    }
    if begins_with(line, "SHIM:"@) {
        assert(line.take("SHIM:"@.len() as int)[0] == line[0]);
        assert(line.take("SHIM:"@.len() as int)[1] == line[1]);
    }
    if begins_with(line, "SOCKET:"@) {
        assert(line.take("SOCKET:"@.len() as int)[0] == line[0]);
        assert(line.take("SOCKET:"@.len() as int)[1] == line[1]);
    }
    if begins_with(line, "SSHADD:"@) {
        assert(line.take("SSHADD:"@.len() as int)[0] == line[0]);
        assert(line.take("SSHADD:"@.len() as int)[1] == line[1]);
    }
}

/// Where no line carries a mark, nothing is known of what it stands for.
pub proof fn what_no_line_says_is_not_known(all: Seq<Seq<char>>)
    ensures
        (forall|j: int| 0 <= j < all.len() ==> !begins_with(#[trigger] all[j], "UPSTREAM:"@)) ==> found_in(
            all,
        ).upstream == Seq::<char>::empty(),
        (forall|j: int| 0 <= j < all.len() ==> !begins_with(#[trigger] all[j], "AUTHSOCK:"@)) ==> found_in(
            all,
        ).auth_sock == Seq::<char>::empty(),
        (forall|j: int| 0 <= j < all.len() ==> !begins_with(#[trigger] all[j], "SHIM:"@)) ==> !found_in(
            all,
        ).shim_executable,
        (forall|j: int| 0 <= j < all.len() ==> !begins_with(#[trigger] all[j], "SOCKET:"@)) ==> !found_in(
            all,
        ).socket_is_socket,
        (forall|j: int| 0 <= j < all.len() ==> !begins_with(#[trigger] all[j], "SSHADD:"@)) ==> found_in(
            all,
        ).ssh_add is Missing,
    decreases all.len(),
{
    if all.len() > 0 {
        let rest = all.drop_last();
        what_no_line_says_is_not_known(rest);
        assert(all.last() == all[all.len() - 1]);
        assert forall|j: int| 0 <= j < rest.len() implies rest[j] == all[j] by {}
    }
}

/// A status and a count, written with a colon between them, are read back.
pub proof fn an_answer_is_read_back(exit_code: i32, identity_count: usize)
    ensures
        ssh_add_of(
            crate::number::decimal_int(exit_code as int) + seq![':'] + crate::number::decimal_of(identity_count as nat),
        ) == (SshAddStatus::Answered { exit_code, identity_count }),
        ssh_add_of("missing"@) is Missing,
{
    let code = crate::number::decimal_int(exit_code as int);
    let count = crate::number::decimal_of(identity_count as nat);
    let value = code + seq![':'] + count;
    crate::number::decimal_has_no_colon(exit_code as int);
    crate::number::signed_reads_back(exit_code as int);
    crate::number::decimal_reads_back(identity_count as nat, usize::MAX as nat);
    assert(value[code.len() as int] == ':');
    assert forall|j: int| 0 <= j < code.len() implies value[j] != ':' by {
        assert(value[j] == code[j]);
    }
    crate::text::first_at_is(value, ':', code.len() as int);
    assert(value.contains(':'));
    assert(value.take(code.len() as int) =~= code);
    assert(value.skip(code.len() as int + 1) =~= count);
    reveal_strlit("missing");
    assert(!"missing"@.contains(':'));
}

/// How an upstream is named: by its scheme.
pub proof fn upstreams_are_named_by_their_scheme(rest: Seq<char>, other: Seq<char>)
    ensures
        mechanism(Seq::empty()) == "no upstream configured"@,
        mechanism("unix:"@ + rest) == "relay (unix)"@,
        mechanism("tcp:"@ + rest) == "relay"@,
        other.len() > 0 && !begins_with(other, "unix:"@) && !begins_with(other, "tcp:"@) ==> mechanism(other)
            == "unrecognized upstream"@,
{
    reveal_strlit("unix:");
    reveal_strlit("tcp:");
    assert(("unix:"@ + rest).take(5) =~= "unix:"@);
    assert(("tcp:"@ + rest).take(4) =~= "tcp:"@);
    assert(("tcp:"@ + rest)[0] == 't');
    if begins_with("tcp:"@ + rest, "unix:"@) {
        assert(("tcp:"@ + rest).take(5)[0] == 'u');
    }
}

/// What the facts of a probe decide. Nothing configured is skipped; a relay over
/// TCP without its shim fails; an agent that answered, with identities or
/// without, passes, and one that could not be contacted fails; where nothing can
/// ask the agent, a relay over TCP is tried by its shim and any other upstream is
/// skipped.
pub proof fn facts_decide_the_row(facts: SshView, feature_name: Seq<char>)
    ensures
        ({
            let verdict = ssh_verdict(facts, feature_name);
            let configured = facts.upstream.len() > 0 || facts.auth_sock.len() > 0 || facts.socket_is_socket;
            let over_tcp = begins_with(facts.upstream, "tcp:"@);
            let how = mechanism(facts.upstream);
            &&& !configured ==> verdict == Some(
                (CheckStatus::Skipped, "no ssh agent configured for this container"@),
            )
            &&& configured && over_tcp && !facts.shim_executable ==> verdict == Some(
                (
                    CheckStatus::Failed,
                    how + ", the `"@ + feature_name
                        + "` feature is not installed so the upstream shim is missing"@,
                ),
            )
            &&& configured && (!over_tcp || facts.shim_executable) ==> match facts.ssh_add {
                SshAddStatus::Answered { exit_code, identity_count } => match verdict {
                    Some((status, detail)) => {
                        &&& status is Passed <==> exit_code == 0 || exit_code == 1
                        &&& status is Failed <==> exit_code != 0 && exit_code != 1
                        &&& exit_code == 0 ==> detail == how + ", "@ + (if identity_count == 1 {
                            "1 identity loaded"@
                        } else {
                            crate::number::decimal_of(identity_count as nat) + " identities loaded"@
                        })
                        &&& exit_code == 1 ==> detail == how + ", agent answered, no identities loaded"@
                        &&& exit_code != 0 && exit_code != 1 && !facts.socket_is_socket ==> detail == how
                            + ", ssh-add could not contact the agent (exit "@ + crate::number::decimal_int(
                            exit_code as int,
                        ) + ")"@ + ""@
                        &&& exit_code != 0 && exit_code != 1 && facts.socket_is_socket ==> detail == how
                            + ", ssh-add could not contact the agent (exit "@ + crate::number::decimal_int(
                            exit_code as int,
                        ) + ")"@ + "; the local socket is bound, but nothing behind it answered"@
                    },
                    None => false,
                },
                SshAddStatus::Missing => if over_tcp {
                    verdict is None
                } else {
                    verdict == Some(
                        (CheckStatus::Skipped, how + ", no ssh-add in this container to ask the agent"@),
                    )
                },
            }
        }),
{
}

/// What the first probe comes to: its facts decide where it ran, and whatever kept
/// it from running is a failure that says so. The shim is asked about the very
/// upstream that was found.
pub proof fn a_probe_that_did_not_run_is_a_failure(outcome: ProbeOutcome, feature_name: Seq<char>)
    ensures
        ({
            let first = ssh_first(outcome, feature_name);
            match outcome {
                ProbeOutcome::Ran(result) => {
                    let facts = found_in(lines_of(result.stdout@));
                    match ssh_verdict(facts, feature_name) {
                        Some((status, detail)) => first is Ok && first->Ok_0.status == status && first->Ok_0.detail
                            == detail && first->Ok_0.name == "ssh agent"@,
                        None => first == Err::<RowView, Seq<char>>(facts.upstream),
                    }
                },
                ProbeOutcome::MissingCommand(detail) => first is Ok && first->Ok_0.status is Failed
                    && first->Ok_0.detail == detail@,
                ProbeOutcome::Refused(detail) => first is Ok && first->Ok_0.status is Failed && first->Ok_0.detail
                    == detail@,
                ProbeOutcome::TimedOut(seconds) => first is Ok && first->Ok_0.status is Failed
                    && first->Ok_0.detail == "it did not report an exit within "@ + seconds@ + "s"@,
            }
        }),
        ssh_first(outcome, feature_name) is Ok && ssh_first(outcome, feature_name)->Ok_0.status is Failed ==> ssh_first(
            outcome,
            feature_name,
        )->Ok_0.remediation == Some(
            "The SSH agent is not answering inside the container.\n\n  Check the socat listener: `dev exec -- ls -l /dev/shm/ssh-agent.sock`\n  — or —\n  Recreate the container so the host relay and postStartCommand both run again: `dev down && dev up`\n\nThen try `dev shell` again."@,
        ),
{
}

/// The shim's attempt passes exactly when it ran and succeeded; one that was
/// refused or did not exit in time fails with that, and any other fails as an
/// agent that could not be reached.
pub proof fn the_shims_attempt_decides(outcome: ProbeOutcome, upstream: Seq<char>)
    ensures
        ({
            let row = liveness_row(outcome, upstream);
            &&& row.name == "ssh agent"@
            &&& !(row.status is Skipped)
            &&& row.status is Passed <==> (outcome matches ProbeOutcome::Ran(result) && result.exit_code == 0)
            &&& match outcome {
                ProbeOutcome::Refused(detail) => row.detail == detail@,
                ProbeOutcome::TimedOut(seconds) => row.detail == "it did not report an exit within "@ + seconds@ + "s"@,
                _ => row.detail == mechanism(upstream) + (if row.status is Passed {
                    ", ssh-add was unavailable, the upstream shim reports the agent is reachable"@
                } else {
                    ", ssh-add was unavailable and the upstream shim could not reach the agent"@
                }),
            }
        }),
{
}

// ---------------------------------------------------------------------------
// Docker in the container
// ---------------------------------------------------------------------------

/// A line that is a version and nothing else, but for white space around it: it
/// opens with a digit and goes on with digits, letters, dots, dashes, plus signs
/// and underscores.
pub open spec fn is_version(line: Seq<char>) -> bool {
    &&& trimmed(line).len() > 0
    &&& '0' <= trimmed(line)[0] <= '9'
    &&& forall|i: int|
        0 <= i < trimmed(line).len() ==> ('0' <= #[trigger] trimmed(line)[i] <= '9' || 'a' <= trimmed(line)[i] <= 'z'
            || 'A' <= trimmed(line)[i] <= 'Z' || trimmed(line)[i] == '.' || trimmed(line)[i] == '-' || trimmed(line)[i]
            == '+' || trimmed(line)[i] == '_')
}

proof fn versions_are_versions(line: Seq<char>)
    ensures
        version_on(line) == if is_version(line) {
            Some(trimmed(line))
        } else {
            None
        },
{
    let t = trimmed(line);
    if is_version(line) {
        assert forall|i: int| 0 <= i < t.len() implies crate::status_runtime::checks::version_char(
            #[trigger] t[i],
        ) by {}
    }
    if version_like(t) {
        assert forall|i: int| 0 <= i < t.len() implies ('0' <= #[trigger] t[i] <= '9' || 'a' <= t[i] <= 'z' || 'A'
            <= t[i] <= 'Z' || t[i] == '.' || t[i] == '-' || t[i] == '+' || t[i] == '_') by {
            assert(crate::status_runtime::checks::version_char(t[i]));
        }
    }
}

/// The daemon is reported as answering exactly when the command succeeded, with the
/// version on the first line that is one; a container without the command is
/// skipped; anything else is a failure that says what went wrong.
pub proof fn a_daemon_answers_or_fails(outcome: ProbeOutcome)
    ensures
        ({
            let row = dind_row(outcome);
            &&& row.name == "dind"@
            &&& row.status is Passed <==> (outcome matches ProbeOutcome::Ran(result) && result.exit_code == 0)
            &&& row.status is Skipped <==> outcome is MissingCommand
            &&& match outcome {
                ProbeOutcome::Refused(detail) => row.detail == detail@,
                ProbeOutcome::TimedOut(seconds) => row.detail == "it did not report an exit within "@ + seconds@ + "s"@,
                ProbeOutcome::MissingCommand(_) => row.detail == "no docker CLI in this container"@,
                ProbeOutcome::Ran(result) => if result.exit_code != 0 {
                    row.detail == trimmed(result.stderr@)
                } else {
                    ||| exists|i: int|
                        {
                            &&& 0 <= i < lines_of(result.stdout@).len()
                            &&& is_version(#[trigger] lines_of(result.stdout@)[i])
                            &&& row.detail == "server "@ + trimmed(lines_of(result.stdout@)[i])
                            &&& forall|j: int|
                                0 <= j < i ==> !is_version(#[trigger] lines_of(result.stdout@)[j])
                        }
                    ||| row.detail == "the daemon answered but reported no server version"@ && forall|j: int|
                        0 <= j < lines_of(result.stdout@).len() ==> !is_version(#[trigger] lines_of(result.stdout@)[j])
                },
            }
        }),
{
    if let ProbeOutcome::Ran(result) = outcome {
        let all = lines_of(result.stdout@);
        let f = |line: Seq<char>| version_on(line);
        the_first_offer_is_taken(all, f);
        assert forall|i: int| 0 <= i < all.len() implies (f(#[trigger] all[i]) is Some <==> is_version(all[i]))
            && (is_version(all[i]) ==> f(all[i]) == Some(trimmed(all[i]))) by {
            versions_are_versions(all[i]);
        }
        assert(dind_version(result.stdout@) == first_on(all, f));
        if first_on(all, f) is Some {
            let i = choose|i: int|
                0 <= i < all.len() && f(#[trigger] all[i]) == first_on(all, f) && forall|j: int|
                    0 <= j < i ==> f(#[trigger] all[j]) is None;
            assert(is_version(all[i]));
        }
    }
}

// ---------------------------------------------------------------------------
// The cmux relay
// ---------------------------------------------------------------------------

/// The relay is reported as answering exactly when the ping succeeded; a container
/// without the shim is skipped; anything else is a failure that says what went
/// wrong.
pub proof fn a_relay_answers_or_fails(outcome: ProbeOutcome)
    ensures
        ({
            let row = ping_row(outcome);
            &&& row.name == "cmux relay"@
            &&& row.status is Passed <==> (outcome matches ProbeOutcome::Ran(result) && result.exit_code == 0)
            &&& row.status is Skipped <==> outcome is MissingCommand
            &&& match outcome {
                ProbeOutcome::Refused(detail) => row.detail == detail@,
                ProbeOutcome::TimedOut(seconds) => row.detail == "it did not report an exit within "@ + seconds@ + "s"@,
                ProbeOutcome::MissingCommand(_) => row.detail
                    == "the cmux-agent feature is not installed in this container"@,
                ProbeOutcome::Ran(result) => row.detail == if result.exit_code == 0 {
                    "shim answered"@
                } else {
                    "the shim did not answer the ping"@
                },
            }
        }),
        crate::status_runtime::checks::ping_answered(outcome) == (ping_row(outcome).status is Passed),
{
}

/// The relay is tried exactly where the project wants it, the host can be called
/// back, and there is one; where several stand in the way, the first is given.
pub proof fn a_relay_is_tried_where_nothing_stands_in_the_way(
    enabled: bool,
    no_callback: Option<Seq<char>>,
    relay_open: bool,
)
    ensures
        relay_skipped(enabled, no_callback, relay_open) is None <==> enabled && no_callback is None && relay_open,
        !enabled ==> relay_skipped(enabled, no_callback, relay_open) == Some(
            "cmux.agent is not enabled for this project"@,
        ),
        enabled && no_callback is Some ==> relay_skipped(enabled, no_callback, relay_open) == no_callback,
        enabled && no_callback is None && !relay_open ==> relay_skipped(enabled, no_callback, relay_open) == Some(
            "no relay to ping: no cmux in this terminal, or its host listener did not open"@,
        ),
{
}

// ---------------------------------------------------------------------------
// Rows
// ---------------------------------------------------------------------------

/// How the outcomes are written.
pub proof fn outcomes_are_written()
    ensures
        crate::status_runtime::checks::status_text(CheckStatus::Passed) == "ok"@,
        crate::status_runtime::checks::status_text(CheckStatus::Failed) == "failed"@,
        crate::status_runtime::checks::status_text(CheckStatus::Skipped) == "skipped"@,
{
}

/// The columns of the table: the name from the first place on, the outcome from the
/// eighteenth and the detail from the twenty-ninth, where the name leaves room.
pub proof fn check_columns_line_up(row: RowView)
    requires
        row.name.len() <= 17,
    ensures
        ({
            let line = crate::status_runtime::checks::row_line(row);
            let outcome = if row.status is Passed {
                "ok"@
            } else if row.status is Failed {
                "failed"@
            } else {
                "skipped"@
            };
            &&& line.take(row.name.len() as int) == row.name
            &&& line.subrange(17, 17int + outcome.len()) == outcome
            &&& line.skip(28) == row.detail
        }),
{
    reveal_strlit("ok");
    reveal_strlit("failed");
    reveal_strlit("skipped");
    let line = crate::status_runtime::checks::row_line(row);
    let outcome = crate::status_runtime::checks::status_text(row.status);
    assert(line.take(row.name.len() as int) =~= row.name);
    assert(line.subrange(17, 17int + outcome.len()) =~= outcome);
    assert(line.skip(28) =~= row.detail);
}

/// The table is its head, and then a line for each row, in their order.
pub proof fn the_table_has_a_line_for_each_check(rows: Seq<RowView>, row: RowView)
    ensures
        crate::status_runtime::checks::check_table(Seq::empty()) == crate::text::padded("CHECK"@, 17)
            + crate::text::padded("RESULT"@, 11) + "DETAIL"@,
        crate::status_runtime::checks::check_table(rows.push(row)) == crate::status_runtime::checks::check_table(rows)
            + "\n"@ + crate::status_runtime::checks::row_line(row),
{
    let head = seq![crate::text::padded("CHECK"@, 17) + crate::text::padded("RESULT"@, 11) + "DETAIL"@];
    let line = |r: RowView| crate::status_runtime::checks::row_line(r);
    let none = Seq::<RowView>::empty();
    assert(head + none.map_values(line) =~= head);
    let all = head + rows.map_values(line);
    assert(head + rows.push(row).map_values(line) =~= all.push(crate::status_runtime::checks::row_line(row)));
    assert(all.push(crate::status_runtime::checks::row_line(row)).drop_last() =~= all);
}

/// A row as JSON has the row's name, outcome and detail.
pub proof fn a_check_is_told_by_its_members(row: RowView)
    ensures
        ({
            let document = crate::status_runtime::checks::row_json(row);
            &&& crate::json::json_member(document, "name"@) == Some(crate::json::Json::Text(row.name))
            &&& crate::json::json_member(document, "detail"@) == Some(crate::json::Json::Text(row.detail))
            &&& row.status is Passed ==> crate::json::json_member(document, "status"@) == Some(
                crate::json::Json::Text("ok"@),
            )
            &&& row.status is Failed ==> crate::json::json_member(document, "status"@) == Some(
                crate::json::Json::Text("failed"@),
            )
            &&& row.status is Skipped ==> crate::json::json_member(document, "status"@) == Some(
                crate::json::Json::Text("skipped"@),
            )
        }),
{
    reveal_strlit("name");
    reveal_strlit("status");
    reveal_strlit("detail");
    assert("name"@.len() == 4 && "status"@.len() == 6 && "detail"@.len() == 6);
    assert("status"@[0] != "detail"@[0]);
    let members = crate::status_runtime::checks::row_json(row)->Object_0;
    crate::status::laws::a_member_is_found(members, 0);
    crate::status::laws::a_member_is_found(members, 1);
    crate::status::laws::a_member_is_found(members, 2);
}

/// A remedy is offered for exactly the checks that failed.
pub proof fn remedies_are_offered_for_failures(outcome: ProbeOutcome, alias: Seq<char>, upstream: Seq<char>)
    ensures
        host_alias_row(outcome, alias).remediation is Some <==> host_alias_row(outcome, alias).status is Failed,
        liveness_row(outcome, upstream).remediation is Some <==> liveness_row(outcome, upstream).status is Failed,
        dind_row(outcome).remediation is Some <==> dind_row(outcome).status is Failed,
        ping_row(outcome).remediation is Some <==> ping_row(outcome).status is Failed,
{
}

/// A daemon or a relay that failed comes with its own remedy.
pub proof fn failures_come_with_their_own_remedy(outcome: ProbeOutcome)
    ensures
        dind_row(outcome).status is Failed ==> dind_row(outcome).remediation == Some(
            "The Docker daemon inside this container is not reachable.\n\n  The docker-in-docker feature contributes `privileged` and its entrypoint through the image's `devcontainer.metadata` label; an image built without that label loses both. Rebuild it: `dev build --no-cache && dev up`\n\nThen try `dev status` again."@,
        ),
        ping_row(outcome).status is Failed ==> ping_row(outcome).remediation == Some(
            "The cmux agent shim did not answer.\n\n  Recreate the container so the relay is reachable again: `dev down && dev up`\n\nThen try `dev status` again."@,
        ),
{
}

/// A shell that could not find a command is taken as a runtime that could not: the checks
/// whose command may be missing are skipped, and no other status is taken so.
pub proof fn a_command_that_is_not_found_is_missing(result: ExecResult, r: ProbeOutcome, alias: Seq<char>)
    requires
        call_ensures(probe_outcome, (ProbeOutcome::Ran(result),), r),
    ensures
        result.exit_code == 127 ==> host_alias_row(r, alias).status is Skipped && dind_row(r).status is Skipped
            && ping_row(r).status is Skipped,
        result.exit_code != 127 ==> !(host_alias_row(r, alias).status is Skipped) && !(dind_row(r).status is Skipped)
            && !(ping_row(r).status is Skipped),
        dind_row(r).status is Passed <==> result.exit_code == 0,
        ping_row(r).status is Passed <==> result.exit_code == 0,
{
    an_alias_resolves_only_to_an_address(r, alias);
}

} // verus!

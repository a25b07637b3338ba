//! The live checks: each a command run in the container, and what its outcome
//! means.
use vstd::prelude::*;

use crate::json::{json_of, object_value, text_value, Json};
use crate::model::ExecResult;
use crate::number::{digit, is_digit, read_i32, read_usize, show_signed, show_unsigned};
use crate::status_runtime::facts::HostAccess;
use crate::text::{
    begins_with, cat2, cat3, cat4, cat5, chars_of, cut_once, join, lines, lines_of, owned, pad, padded, same,
    split_once, split_words, starts_with, strip_prefix, text_opt, texts, trim, trimmed, words,
};

verus! {

// ---------------------------------------------------------------------------
// Rows
// ---------------------------------------------------------------------------

/// How a check came out.
#[derive(Clone, Copy, Debug, PartialEq, Eq, Structural)]
pub enum CheckStatus {
    Passed,
    Failed,
    Skipped,
}

/// How an outcome is written.
pub open spec fn status_text(status: CheckStatus) -> Seq<char> {
    match status {
        CheckStatus::Passed => "ok"@,
        CheckStatus::Failed => "failed"@,
        CheckStatus::Skipped => "skipped"@,
    }
}

impl CheckStatus {
    /// How the outcome is written.
    pub fn as_str(self) -> (r: &'static str)
        ensures
            r@ == status_text(self),
    {
        match self {
            CheckStatus::Passed => "ok",
            CheckStatus::Failed => "failed",
            CheckStatus::Skipped => "skipped",
        }
    }
}

/// One check's outcome.
#[derive(Debug, PartialEq, Eq)]
pub struct CheckRow {
    pub name: String,
    pub status: CheckStatus,
    pub detail: String,
    /// What to do about a check that failed.
    pub remediation: Option<String>,
}

/// What a row says.
#[verifier::ext_equal]
pub struct RowView {
    pub name: Seq<char>,
    pub status: CheckStatus,
    pub detail: Seq<char>,
    pub remediation: Option<Seq<char>>,
}

impl View for CheckRow {
    type V = RowView;

    open spec fn view(&self) -> RowView {
        RowView {
            name: self.name@,
            status: self.status,
            detail: self.detail@,
            remediation: text_opt(self.remediation),
        }
    }
}

/// What rows say.
pub open spec fn row_views(s: Seq<CheckRow>) -> Seq<RowView> {
    s.map_values(|c: CheckRow| c@)
}

pub open spec fn passed(name: Seq<char>, detail: Seq<char>) -> RowView {
    RowView { name, status: CheckStatus::Passed, detail, remediation: None }
}

pub open spec fn skipped(name: Seq<char>, detail: Seq<char>) -> RowView {
    RowView { name, status: CheckStatus::Skipped, detail, remediation: None }
}

pub open spec fn failed(name: Seq<char>, detail: Seq<char>, remediation: Seq<char>) -> RowView {
    RowView { name, status: CheckStatus::Failed, detail, remediation: Some(remediation) }
}

/// A check that passed.
pub fn ok_row(name: &str, detail: String) -> (r: CheckRow)
    ensures
        r@ == passed(name@, detail@),
{
    CheckRow { name: owned(name), status: CheckStatus::Passed, detail, remediation: None }
}

/// A check that could not be made.
pub fn skip_row(name: &str, detail: String) -> (r: CheckRow)
    ensures
        r@ == skipped(name@, detail@),
{
    CheckRow { name: owned(name), status: CheckStatus::Skipped, detail, remediation: None }
}

/// A check that failed, and what to do about it.
pub fn failed_row(name: &str, detail: String, remediation: String) -> (r: CheckRow)
    ensures
        r@ == failed(name@, detail@, remediation@),
{
    CheckRow { name: owned(name), status: CheckStatus::Failed, detail, remediation: Some(remediation) }
}

/// A row as JSON. What to do about it is not part of it.
pub open spec fn row_json(row: RowView) -> Json {
    Json::Object(
        seq![
            ("name"@, Json::Text(row.name)),
            ("status"@, Json::Text(status_text(row.status))),
            ("detail"@, Json::Text(row.detail)),
        ],
    )
}

impl CheckRow {
    /// The row as JSON.
    pub fn to_json(&self) -> (r: serde_json::Value)
        ensures
            json_of(r) == row_json(self@),
    {
        let members: Vec<(String, serde_json::Value)> = vec![
            (owned("name"), text_value(self.name.clone())),
            (owned("status"), text_value(owned(self.status.as_str()))),
            (owned("detail"), text_value(self.detail.clone())),
        ];
        proof {
            assert(crate::json::members_of(members@) =~= row_json(self@)->Object_0);
            reveal_strlit("name");
            reveal_strlit("status");
            reveal_strlit("detail");
            assert("name"@.len() == 4);
            assert("status"@.len() == 6 && "status"@[0] == 's');
            assert("detail"@.len() == 6 && "detail"@[0] == 'd');
        }
        object_value(members)
    }
}

/// A row of the check table.
pub open spec fn row_line(row: RowView) -> Seq<char> {
    padded(row.name, 17) + padded(status_text(row.status), 11) + row.detail
}

/// The check table: a head, then a row each.
pub open spec fn check_table(rows: Seq<RowView>) -> Seq<char> {
    crate::text::joined(
        seq![padded("CHECK"@, 17) + padded("RESULT"@, 11) + "DETAIL"@] + rows.map_values(
            |r: RowView| row_line(r),
        ),
        "\n"@,
    )
}

fn three_columns(a: &str, b: &str, c: &str) -> (r: String)
    ensures
        r@ == padded(a@, 17) + padded(b@, 11) + c@,
{
    let mut out = pad(a, 17);
    let middle = pad(b, 11);
    out.append(middle.as_str());
    out.append(c);
    out
}

/// The check table.
pub fn render_checks_table(checks: &Vec<CheckRow>) -> (r: String)
    ensures
        r@ == check_table(row_views(checks@)),
{
    let ghost rows = row_views(checks@).map_values(|r: RowView| row_line(r));
    let head = three_columns("CHECK", "RESULT", "DETAIL");
    let ghost first = seq![head@];
    let mut out: Vec<String> = vec![head];
    assert(texts(out@) =~= first + rows.take(0));
    let mut i: usize = 0;
    while i < checks.len()
        invariant
            rows == row_views(checks@).map_values(|r: RowView| row_line(r)),
            i <= checks@.len(),
            texts(out@) == first + rows.take(i as int),
        decreases checks@.len() - i,
    {
        let ghost before = texts(out@);
        let line = three_columns(
            checks[i].name.as_str(),
            checks[i].status.as_str(),
            checks[i].detail.as_str(),
        );
        out.push(line);
        i = i + 1;
        proof {
            assert(texts(out@) == before.push(line@));
            assert(line@ == rows[i - 1]);
            assert(first + rows.take(i as int) == before.push(rows[i - 1]));
        }
    }
    assert(rows.take(rows.len() as int) == rows);
    join(&out, "\n")
}

// ---------------------------------------------------------------------------
// Probes
// ---------------------------------------------------------------------------

/// What a command run in the container came to.
#[derive(Debug, PartialEq, Eq)]
pub enum ProbeOutcome {
    Ran(ExecResult),
    MissingCommand(String),
    Refused(String),
    /// No exit within this many seconds, as they are written.
    TimedOut(String),
}

/// A shell says of a command that it could not find what a runtime says of one:
/// that it is missing.
pub fn probe_outcome(attempt: ProbeOutcome) -> (r: ProbeOutcome)
    ensures
        match attempt {
            ProbeOutcome::Ran(result) => if result.exit_code == 127 {
                r matches ProbeOutcome::MissingCommand(said) && said@ == trimmed(result.stderr@)
            } else {
                r == attempt
            },
            _ => r == attempt,
        },
{
    match attempt {
        ProbeOutcome::Ran(result) => {
            if result.exit_code == 127 {
                ProbeOutcome::MissingCommand(trim(result.stderr.as_str()))
            } else {
                ProbeOutcome::Ran(result)
            }
        },
        other => other,
    }
}

/// What is said of a command that did not exit in time.
pub open spec fn timeout_text(seconds: Seq<char>) -> Seq<char> {
    "it did not report an exit within "@ + seconds + "s"@
}

/// What is said of a command that did not exit in time.
pub fn timeout_detail(seconds: &str) -> (r: String)
    ensures
        r@ == timeout_text(seconds@),
{
    cat3("it did not report an exit within ", seconds, "s")
}

/// What is said of an outcome that every check fails on in the same way.
pub open spec fn plain_failure(outcome: ProbeOutcome) -> Option<Seq<char>> {
    match outcome {
        ProbeOutcome::Refused(detail) => Some(detail@),
        ProbeOutcome::TimedOut(seconds) => Some(timeout_text(seconds@)),
        _ => None,
    }
}

/// Peel off the outcomes that no check reads for itself: a command that was
/// refused, or that did not exit in time.
pub fn decidable(outcome: &ProbeOutcome, name: &str, remediation: String) -> (r: Option<CheckRow>)
    ensures
        match plain_failure(*outcome) {
            Some(detail) => r is Some && r->Some_0@ == failed(name@, detail, remediation@),
            None => r is None,
        },
{
    match outcome {
        ProbeOutcome::Refused(detail) => Some(failed_row(name, detail.clone(), remediation)),
        ProbeOutcome::TimedOut(seconds) => Some(
            failed_row(name, timeout_detail(seconds.as_str()), remediation),
        ),
        _ => None,
    }
}

/// The arguments that have a login shell run a probe.
pub open spec fn login_args(script: Seq<char>) -> Seq<Seq<char>> {
    seq!["sh"@, "-lc"@, script, "dev-status"@]
}

/// The arguments that have a login shell run a probe.
pub fn probe_cmd(script: String) -> (r: Vec<String>)
    ensures
        texts(r@) == login_args(script@),
{
    let ghost text = script@;
    let v: Vec<String> = vec![owned("sh"), owned("-lc"), script, owned("dev-status")];
    assert(texts(v@) =~= login_args(text));
    v
}

// ---------------------------------------------------------------------------
// The host alias
// ---------------------------------------------------------------------------

/// What to do about an alias that does not resolve.
pub open spec fn alias_remedy(alias: Seq<char>) -> Seq<char> {
    "The host alias `"@ + alias
        + "` did not resolve inside the container.\n\n  Recreate the container so the alias is written again: `dev down && dev up`\n\nThen try `dev status` again."@
}

/// What to do about an alias that does not resolve.
pub fn remediation_host_alias(alias: &str) -> (r: String)
    ensures
        r@ == alias_remedy(alias@),
{
    cat3(
        "The host alias `",
        alias,
        "` did not resolve inside the container.\n\n  Recreate the container so the alias is written again: `dev down && dev up`\n\nThen try `dev status` again.",
    )
}

/// A character of a network address.
pub open spec fn address_char(c: char) -> bool {
    digit(c) || 'a' <= c <= 'f' || 'A' <= c <= 'F' || c == '.' || c == ':' || c == '%'
}

/// Nothing but characters of a network address.
pub open spec fn address_like(token: Seq<char>) -> bool {
    forall|i: int| 0 <= i < token.len() ==> address_char(#[trigger] token[i])
}

/// Whether a word looks like a network address.
pub fn looks_like_address(token: &str) -> (r: bool)
    ensures
        r == address_like(token@),
{
    let v = chars_of(token);
    let mut i: usize = 0;
    while i < v.len()
        invariant
            v@ == token@,
            i <= v@.len(),
            forall|j: int| 0 <= j < i ==> address_char(#[trigger] v@[j]),
        decreases v@.len() - i,
    {
        let c = v[i];
        if !(is_digit(c) || ('a' <= c && c <= 'f') || ('A' <= c && c <= 'F') || c == '.' || c == ':' || c
            == '%') {
            assert(!address_char(token@[i as int]));
            return false;
        }
        i = i + 1;
    }
    true
}

/// The address on a line, if the line opens with one and names the alias.
pub open spec fn address_on(line: Seq<char>, alias: Seq<char>) -> Option<Seq<char>> {
    let tokens = words(line);
    if tokens.len() > 0 && address_like(tokens[0]) && tokens.drop_first().contains(alias) {
        Some(tokens[0])
    } else {
        None
    }
}

/// The first thing that one of the lines has to offer.
pub open spec fn first_on(all: Seq<Seq<char>>, f: spec_fn(Seq<char>) -> Option<Seq<char>>) -> Option<Seq<char>>
    decreases all.len(),
{
    if all.len() == 0 {
        None
    } else {
        match f(all[0]) {
            Some(found) => Some(found),
            None => first_on(all.drop_first(), f),
        }
    }
}

/// The address that was printed for the alias.
pub open spec fn getent_address(stdout: Seq<char>, alias: Seq<char>) -> Option<Seq<char>> {
    first_on(lines_of(stdout), |line: Seq<char>| address_on(line, alias))
}

fn line_address(line: &str, alias: &str) -> (r: Option<String>)
    ensures
        text_opt(r) == address_on(line@, alias@),
{
    let tokens = split_words(line);
    let ghost all = words(line@);
    assert(texts(tokens@) == all);
    assert(all.len() == tokens@.len());
    if tokens.len() == 0 {
        return None;
    }
    assert(all[0] == tokens@[0]@);
    if !looks_like_address(tokens[0].as_str()) {
        return None;
    }
    let mut i: usize = 1;
    while i < tokens.len()
        invariant
            all == words(line@),
            texts(tokens@) == all,
            all.len() == tokens@.len(),
            tokens@.len() > 0,
            all[0] == tokens@[0]@,
            address_like(all[0]),
            1 <= i <= tokens@.len(),
            forall|j: int| 1 <= j < i ==> (#[trigger] all[j]) != alias@,
        decreases tokens@.len() - i,
    {
        assert(all[i as int] == tokens@[i as int]@);
        if same(tokens[i].as_str(), alias) {
            assert(all.drop_first()[i - 1] == alias@);
            return Some(tokens[0].clone());
        }
        i = i + 1;
    }
    proof {
        if all.drop_first().contains(alias@) {
            let j = choose|j: int| 0 <= j < all.drop_first().len() && all.drop_first()[j] == alias@;
            assert(all[j + 1] == alias@);
        }
    }
    None
}

/// The address that was printed for the alias: the first word of the first line
/// that opens with an address and names the alias. A shell's banner is passed
/// over.
pub fn parse_getent_address(stdout: &str, alias: &str) -> (r: Option<String>)
    ensures
        text_opt(r) == getent_address(stdout@, alias@),
{
    let all = lines(stdout);
    let ghost text = lines_of(stdout@);
    let ghost f = |line: Seq<char>| address_on(line, alias@);
    let mut i: usize = 0;
    assert(text.skip(0) == text);
    while i < all.len()
        invariant
            texts(all@) == text,
            f == (|line: Seq<char>| address_on(line, alias@)),
            i <= all@.len(),
            first_on(text, f) == first_on(text.skip(i as int), f),
            text == lines_of(stdout@),
        decreases all@.len() - i,
    {
        proof {
            assert(text[i as int] == all@[i as int]@);
            assert(text.skip(i as int)[0] == text[i as int]);
            assert(text.skip(i as int).drop_first() == text.skip(i + 1));
        }
        match line_address(all[i].as_str(), alias) {
            Some(address) => {
                return Some(address);
            },
            None => {},
        }
        i = i + 1;
    }
    None
}

/// The command that asks for the alias, or the row of a flavor that has none.
pub fn host_alias_command(access: &HostAccess) -> (r: Result<Vec<String>, CheckRow>)
    ensures
        match access.gateway_alias {
            Some(alias) => r is Ok && texts(r->Ok_0@) == login_args("getent hosts "@ + alias@),
            None => r is Err && r->Err_0@ == skipped("host alias"@, "this flavor has no host alias"@),
        },
{
    match &access.gateway_alias {
        Some(alias) => Ok(probe_cmd(cat2("getent hosts ", alias.as_str()))),
        None => Err(skip_row("host alias", owned("this flavor has no host alias"))),
    }
}

/// What the outcome says of the alias.
pub open spec fn host_alias_row(outcome: ProbeOutcome, alias: Seq<char>) -> RowView {
    match plain_failure(outcome) {
        Some(detail) => failed("host alias"@, detail, alias_remedy(alias)),
        None => match outcome {
            ProbeOutcome::MissingCommand(_) => skipped(
                "host alias"@,
                "no getent in this container"@,
            ),
            ProbeOutcome::Ran(result) => if result.exit_code == 0 {
                match getent_address(result.stdout@, alias) {
                    Some(address) => passed("host alias"@, "resolves to "@ + address),
                    None => failed(
                        "host alias"@,
                        "`getent hosts "@ + alias + "` printed no address"@,
                        alias_remedy(alias),
                    ),
                }
            } else {
                failed("host alias"@, "could not resolve `"@ + alias + "`"@, alias_remedy(alias))
            },
            _ => failed("host alias"@, "could not resolve `"@ + alias + "`"@, alias_remedy(alias)),
        },
    }
}

/// What the outcome says of the alias.
pub fn check_host_alias(outcome: &ProbeOutcome, alias: &str) -> (r: CheckRow)
    ensures
        r@ == host_alias_row(*outcome, alias@),
{
    match decidable(outcome, "host alias", remediation_host_alias(alias)) {
        Some(row) => {
            return row;
        },
        None => {},
    }
    match outcome {
        ProbeOutcome::MissingCommand(_) => skip_row("host alias", owned("no getent in this container")),
        ProbeOutcome::Ran(result) => {
            if result.exit_code == 0 {
                match parse_getent_address(result.stdout.as_str(), alias) {
                    Some(address) => ok_row("host alias", cat2("resolves to ", address.as_str())),
                    None => failed_row(
                        "host alias",
                        cat3("`getent hosts ", alias, "` printed no address"),
                        remediation_host_alias(alias),
                    ),
                }
            } else {
                failed_row(
                    "host alias",
                    cat3("could not resolve `", alias, "`"),
                    remediation_host_alias(alias),
                )
            }
        },
        _ => failed_row(
            "host alias",
            cat3("could not resolve `", alias, "`"),
            remediation_host_alias(alias),
        ),
    }
}

// ---------------------------------------------------------------------------
// The ssh agent
// ---------------------------------------------------------------------------

/// What `ssh-add` answered.
#[derive(Clone, Copy, Debug, PartialEq, Eq, Structural)]
pub enum SshAddStatus {
    Missing,
    Answered { exit_code: i32, identity_count: usize },
}

/// What one probe of the ssh agent found.
#[derive(Debug, PartialEq, Eq)]
pub struct SshProbeFacts {
    pub upstream: String,
    pub auth_sock: String,
    pub shim_executable: bool,
    pub socket_is_socket: bool,
    pub ssh_add: SshAddStatus,
}

/// What one probe of the ssh agent found.
#[verifier::ext_equal]
pub struct SshView {
    pub upstream: Seq<char>,
    pub auth_sock: Seq<char>,
    pub shim_executable: bool,
    pub socket_is_socket: bool,
    pub ssh_add: SshAddStatus,
}

impl View for SshProbeFacts {
    type V = SshView;

    open spec fn view(&self) -> SshView {
        SshView {
            upstream: self.upstream@,
            auth_sock: self.auth_sock@,
            shim_executable: self.shim_executable,
            socket_is_socket: self.socket_is_socket,
            ssh_add: self.ssh_add,
        }
    }
}

/// The script of the probe, for a shim at this path.
pub open spec fn probe_script_text(shim: Seq<char>) -> Seq<char> {
    "printf 'UPSTREAM:%s\\n' \"${DEV_SSH_AGENT_UPSTREAM:-}\"; printf 'AUTHSOCK:%s\\n' \"${SSH_AUTH_SOCK:-}\"; printf 'SHIM:%s\\n' \"$([ -x "@
        + shim
        + " ] && echo yes || echo no)\"; printf 'SOCKET:%s\\n' \"$([ -S /dev/shm/ssh-agent.sock ] && echo yes || echo no)\"; if command -v ssh-add >/dev/null 2>&1; then out=$(ssh-add -l 2>/dev/null); code=$?; printf 'SSHADD:%s:%s\\n' \"$code\" \"$(printf '%s\\n' \"$out\" | grep -c .)\"; else printf 'SSHADD:missing\\n'; fi"@
}

/// The script of the probe, for a shim at this path. It exits with success
/// whatever it finds.
pub fn ssh_probe_script(shim: &str) -> (r: String)
    ensures
        r@ == probe_script_text(shim@),
{
    cat3(
        "printf 'UPSTREAM:%s\\n' \"${DEV_SSH_AGENT_UPSTREAM:-}\"; printf 'AUTHSOCK:%s\\n' \"${SSH_AUTH_SOCK:-}\"; printf 'SHIM:%s\\n' \"$([ -x ",
        shim,
        " ] && echo yes || echo no)\"; printf 'SOCKET:%s\\n' \"$([ -S /dev/shm/ssh-agent.sock ] && echo yes || echo no)\"; if command -v ssh-add >/dev/null 2>&1; then out=$(ssh-add -l 2>/dev/null); code=$?; printf 'SSHADD:%s:%s\\n' \"$code\" \"$(printf '%s\\n' \"$out\" | grep -c .)\"; else printf 'SSHADD:missing\\n'; fi",
    )
}

/// What `ssh-add` answered: a status and a count with a colon between, or
/// nothing that can be read.
pub open spec fn ssh_add_of(value: Seq<char>) -> SshAddStatus {
    match cut_once(value, ':') {
        Some((code, count)) => match (
            crate::number::signed_of(code),
            crate::number::unsigned_of(count, usize::MAX as nat),
        ) {
            (Some(code), Some(count)) => SshAddStatus::Answered {
                exit_code: code as i32,
                identity_count: count as usize,
            },
            _ => SshAddStatus::Missing,
        },
        None => SshAddStatus::Missing,
    }
}

/// What `ssh-add` answered.
pub fn parse_ssh_add_status(value: &str) -> (r: SshAddStatus)
    ensures
        r == ssh_add_of(value@),
{
    match split_once(value, ':') {
        Some((code, count)) => match (read_i32(code.as_str()), read_usize(count.as_str())) {
            (Some(exit_code), Some(identity_count)) => SshAddStatus::Answered { exit_code, identity_count },
            _ => SshAddStatus::Missing,
        },
        None => SshAddStatus::Missing,
    }
}

/// What is known before anything was found.
pub open spec fn nothing_found() -> SshView {
    SshView {
        upstream: Seq::empty(),
        auth_sock: Seq::empty(),
        shim_executable: false,
        socket_is_socket: false,
        ssh_add: SshAddStatus::Missing,
    }
}

/// What is known after one more line.
pub open spec fn with_line(found: SshView, line: Seq<char>) -> SshView {
    if begins_with(line, "UPSTREAM:"@) {
        SshView { upstream: line.skip("UPSTREAM:"@.len() as int), ..found }
    } else if begins_with(line, "AUTHSOCK:"@) {
        SshView { auth_sock: line.skip("AUTHSOCK:"@.len() as int), ..found }
    } else if begins_with(line, "SHIM:"@) {
        SshView { shim_executable: line.skip("SHIM:"@.len() as int) == "yes"@, ..found }
    } else if begins_with(line, "SOCKET:"@) {
        SshView { socket_is_socket: line.skip("SOCKET:"@.len() as int) == "yes"@, ..found }
    } else if begins_with(line, "SSHADD:"@) {
        SshView { ssh_add: ssh_add_of(line.skip("SSHADD:"@.len() as int)), ..found }
    } else {
        found
    }
}

/// What is known after these lines.
pub open spec fn found_in(all: Seq<Seq<char>>) -> SshView
    decreases all.len(),
{
    if all.len() == 0 {
        nothing_found()
    } else {
        with_line(found_in(all.drop_last()), all.last())
    }
}

fn take_line(facts: &mut SshProbeFacts, line: &str)
    ensures
        final(facts)@ == with_line(old(facts)@, line@),
{
    match strip_prefix(line, "UPSTREAM:") {
        Some(value) => {
            facts.upstream = value;
            return;
        },
        None => {},
    }
    match strip_prefix(line, "AUTHSOCK:") {
        Some(value) => {
            facts.auth_sock = value;
            return;
        },
        None => {},
    }
    match strip_prefix(line, "SHIM:") {
        Some(value) => {
            facts.shim_executable = same(value.as_str(), "yes");
            return;
        },
        None => {},
    }
    match strip_prefix(line, "SOCKET:") {
        Some(value) => {
            facts.socket_is_socket = same(value.as_str(), "yes");
            return;
        },
        None => {},
    }
    match strip_prefix(line, "SSHADD:") {
        Some(value) => {
            facts.ssh_add = parse_ssh_add_status(value.as_str());
        },
        None => {},
    }
}

/// What the probe found, from what it printed: each fact from the last line
/// that carries its mark. Other lines are passed over.
pub fn parse_ssh_probe(stdout: &str) -> (r: SshProbeFacts)
    ensures
        r@ == found_in(lines_of(stdout@)),
{
    let all = lines(stdout);
    let ghost text = lines_of(stdout@);
    let mut facts = SshProbeFacts {
        upstream: String::new(),
        auth_sock: String::new(),
        shim_executable: false,
        socket_is_socket: false,
        ssh_add: SshAddStatus::Missing,
    };
    let mut i: usize = 0;
    assert(facts@ =~= found_in(text.take(0)));
    while i < all.len()
        invariant
            texts(all@) == text,
            i <= all@.len(),
            facts@ == found_in(text.take(i as int)),
        decreases all@.len() - i,
    {
        proof {
            assert(text.take(i + 1).drop_last() == text.take(i as int));
            assert(text.take(i + 1).last() == all@[i as int]@);
        }
        take_line(&mut facts, all[i].as_str());
        i = i + 1;
    }
    assert(text.take(text.len() as int) == text);
    facts
}

/// How the agent reaches the container, from the container's own environment.
pub open spec fn mechanism(upstream: Seq<char>) -> Seq<char> {
    if upstream.len() == 0 {
        "no upstream configured"@
    } else if begins_with(upstream, "unix:"@) {
        "relay (unix)"@
    } else if begins_with(upstream, "tcp:"@) {
        "relay"@
    } else {
        "unrecognized upstream"@
    }
}

/// How the agent reaches the container.
pub fn ssh_mechanism_label(upstream: &str) -> (r: &'static str)
    ensures
        r@ == mechanism(upstream@),
{
    if upstream.is_empty() {
        "no upstream configured"
    } else if starts_with(upstream, "unix:") {
        "relay (unix)"
    } else if starts_with(upstream, "tcp:") {
        "relay"
    } else {
        "unrecognized upstream"
    }
}

/// How many identities are loaded.
pub open spec fn identities(count: nat) -> Seq<char> {
    if count == 1 {
        "1 identity loaded"@
    } else {
        crate::number::decimal_of(count) + " identities loaded"@
    }
}

/// How many identities are loaded.
pub fn identities_phrase(count: usize) -> (r: String)
    ensures
        r@ == identities(count as nat),
{
    if count == 1 {
        owned("1 identity loaded")
    } else {
        let n = show_unsigned(count as u64);
        cat2(n.as_str(), " identities loaded")
    }
}

/// What is said of an agent that `ssh-add` could not contact.
pub open spec fn refused_detail(mechanism: Seq<char>, exit_code: i32, socket_is_socket: bool) -> Seq<char> {
    mechanism + ", ssh-add could not contact the agent (exit "@ + crate::number::decimal_int(
        exit_code as int,
    ) + ")"@ + (if socket_is_socket {
        "; the local socket is bound, but nothing behind it answered"@
    } else {
        ""@
    })
}

/// What is said of an agent that `ssh-add` could not contact.
pub fn ssh_add_refused_detail(mechanism: &str, exit_code: i32, socket_is_socket: bool) -> (r: String)
    ensures
        r@ == refused_detail(mechanism@, exit_code, socket_is_socket),
{
    let code = show_signed(exit_code);
    cat5(
        mechanism,
        ", ssh-add could not contact the agent (exit ",
        code.as_str(),
        ")",
        if socket_is_socket {
            "; the local socket is bound, but nothing behind it answered"
        } else {
            ""
        },
    )
}

/// The container was never given an agent: no sign of one is there.
pub open spec fn no_agent(facts: SshView) -> bool {
    facts.upstream.len() == 0 && facts.auth_sock.len() == 0 && !facts.socket_is_socket
}

/// Whether the container was never given an agent.
pub fn nothing_configured(facts: &SshProbeFacts) -> (r: bool)
    ensures
        r == no_agent(facts@),
{
    facts.upstream.as_str().is_empty() && facts.auth_sock.as_str().is_empty() && !facts.socket_is_socket
}

/// What a probe's facts decide.
#[derive(Debug, PartialEq, Eq)]
pub enum SshVerdict {
    Row(CheckStatus, String),
    /// Only another probe can tell.
    NeedsLivenessProbe,
}

/// What a probe's facts decide: a status and what is said, or that only another
/// probe can tell.
pub open spec fn ssh_verdict(facts: SshView, feature_name: Seq<char>) -> Option<(CheckStatus, Seq<char>)> {
    let how = mechanism(facts.upstream);
    if no_agent(facts) {
        Some((CheckStatus::Skipped, "no ssh agent configured for this container"@))
    } else if begins_with(facts.upstream, "tcp:"@) && !facts.shim_executable {
        Some(
            (
                CheckStatus::Failed,
                how + ", the `"@ + feature_name
                    + "` feature is not installed so the upstream shim is missing"@,
            ),
        )
    } else {
        match facts.ssh_add {
            SshAddStatus::Answered { exit_code, identity_count } => if exit_code == 0 {
                Some((CheckStatus::Passed, how + ", "@ + identities(identity_count as nat)))
            } else if exit_code == 1 {
                Some((CheckStatus::Passed, how + ", agent answered, no identities loaded"@))
            } else {
                Some((CheckStatus::Failed, refused_detail(how, exit_code, facts.socket_is_socket)))
            },
            SshAddStatus::Missing => if begins_with(facts.upstream, "tcp:"@) {
                None
            } else {
                Some(
                    (CheckStatus::Skipped, how + ", no ssh-add in this container to ask the agent"@),
                )
            },
        }
    }
}

/// What a probe's facts decide. `feature_name` is the feature that installs the
/// upstream shim.
pub fn interpret_ssh_probe(facts: &SshProbeFacts, feature_name: &str) -> (r: SshVerdict)
    ensures
        match ssh_verdict(facts@, feature_name@) {
            Some((status, detail)) => r matches SshVerdict::Row(s, d) && s == status && d@ == detail,
            None => r is NeedsLivenessProbe,
        },
{
    let how = ssh_mechanism_label(facts.upstream.as_str());
    if nothing_configured(facts) {
        return SshVerdict::Row(
            CheckStatus::Skipped,
            owned("no ssh agent configured for this container"),
        );
    }
    let relayed = starts_with(facts.upstream.as_str(), "tcp:");
    if relayed && !facts.shim_executable {
        return SshVerdict::Row(
            CheckStatus::Failed,
            cat4(
                how,
                ", the `",
                feature_name,
                "` feature is not installed so the upstream shim is missing",
            ),
        );
    }
    match facts.ssh_add {
        SshAddStatus::Answered { exit_code, identity_count } => {
            if exit_code == 0 {
                let phrase = identities_phrase(identity_count);
                SshVerdict::Row(CheckStatus::Passed, cat3(how, ", ", phrase.as_str()))
            } else if exit_code == 1 {
                SshVerdict::Row(
                    CheckStatus::Passed,
                    cat2(how, ", agent answered, no identities loaded"),
                )
            } else {
                SshVerdict::Row(
                    CheckStatus::Failed,
                    ssh_add_refused_detail(how, exit_code, facts.socket_is_socket),
                )
            }
        },
        SshAddStatus::Missing => {
            if relayed {
                SshVerdict::NeedsLivenessProbe
            } else {
                SshVerdict::Row(
                    CheckStatus::Skipped,
                    cat2(how, ", no ssh-add in this container to ask the agent"),
                )
            }
        },
    }
}

/// What to do about an agent that does not answer.
pub open spec fn ssh_remedy() -> Seq<char> {
    "The SSH agent is not answering inside the container.\n\n  Check the socat listener: `dev exec -- ls -l /dev/shm/ssh-agent.sock`\n  — or —\n  Recreate the container so the host relay and postStartCommand both run again: `dev down && dev up`\n\nThen try `dev shell` again."@
}

/// What to do about an agent that does not answer.
pub fn remediation_ssh_agent() -> (r: String)
    ensures
        r@ == ssh_remedy(),
{
    owned(
        "The SSH agent is not answering inside the container.\n\n  Check the socat listener: `dev exec -- ls -l /dev/shm/ssh-agent.sock`\n  — or —\n  Recreate the container so the host relay and postStartCommand both run again: `dev down && dev up`\n\nThen try `dev shell` again.",
    )
}

/// The row of a verdict.
pub open spec fn ssh_row(status: CheckStatus, detail: Seq<char>) -> RowView {
    match status {
        CheckStatus::Passed => passed("ssh agent"@, detail),
        CheckStatus::Skipped => skipped("ssh agent"@, detail),
        CheckStatus::Failed => failed("ssh agent"@, detail, ssh_remedy()),
    }
}

/// What the first probe of the agent comes to.
#[derive(Debug, PartialEq, Eq)]
pub enum SshStep {
    Row(CheckRow),
    /// Have the shim try the agent, which this upstream leads to.
    TryShim(String),
}

/// What the first probe of the agent comes to: a row, or another probe for an
/// upstream.
pub open spec fn ssh_first(outcome: ProbeOutcome, feature_name: Seq<char>) -> Result<RowView, Seq<char>> {
    match outcome {
        ProbeOutcome::Ran(result) => {
            let facts = found_in(lines_of(result.stdout@));
            match ssh_verdict(facts, feature_name) {
                Some((status, detail)) => Ok(ssh_row(status, detail)),
                None => Err(facts.upstream),
            }
        },
        ProbeOutcome::MissingCommand(detail) => Ok(failed("ssh agent"@, detail@, ssh_remedy())),
        ProbeOutcome::Refused(detail) => Ok(failed("ssh agent"@, detail@, ssh_remedy())),
        ProbeOutcome::TimedOut(seconds) => Ok(
            failed("ssh agent"@, timeout_text(seconds@), ssh_remedy()),
        ),
    }
}

/// What the first probe of the agent comes to.
pub fn check_ssh_agent(outcome: &ProbeOutcome, feature_name: &str) -> (r: SshStep)
    ensures
        match ssh_first(*outcome, feature_name@) {
            Ok(row) => r matches SshStep::Row(c) && c@ == row,
            Err(upstream) => r matches SshStep::TryShim(u) && u@ == upstream,
        },
{
    match outcome {
        ProbeOutcome::Ran(result) => {
            let facts = parse_ssh_probe(result.stdout.as_str());
            match interpret_ssh_probe(&facts, feature_name) {
                SshVerdict::Row(status, detail) => match status {
                    CheckStatus::Passed => SshStep::Row(ok_row("ssh agent", detail)),
                    CheckStatus::Skipped => SshStep::Row(skip_row("ssh agent", detail)),
                    CheckStatus::Failed => SshStep::Row(
                        failed_row("ssh agent", detail, remediation_ssh_agent()),
                    ),
                },
                SshVerdict::NeedsLivenessProbe => SshStep::TryShim(facts.upstream),
            }
        },
        ProbeOutcome::MissingCommand(detail) => SshStep::Row(
            failed_row("ssh agent", detail.clone(), remediation_ssh_agent()),
        ),
        ProbeOutcome::Refused(detail) => SshStep::Row(
            failed_row("ssh agent", detail.clone(), remediation_ssh_agent()),
        ),
        ProbeOutcome::TimedOut(seconds) => SshStep::Row(
            failed_row("ssh agent", timeout_detail(seconds.as_str()), remediation_ssh_agent()),
        ),
    }
}

/// The command that has the shim try the agent.
pub fn liveness_command(shim: &str) -> (r: Vec<String>)
    ensures
        texts(r@) == seq!["sh"@, "-lc"@, ": | "@ + shim@],
{
    let v: Vec<String> = vec![owned("sh"), owned("-lc"), cat2(": | ", shim)];
    assert(texts(v@) =~= seq!["sh"@, "-lc"@, ": | "@ + shim@]);
    v
}

/// What the shim's attempt says of the agent.
pub open spec fn liveness_row(outcome: ProbeOutcome, upstream: Seq<char>) -> RowView {
    match plain_failure(outcome) {
        Some(detail) => failed("ssh agent"@, detail, ssh_remedy()),
        None => if outcome is Ran && outcome->Ran_0.exit_code == 0 {
            passed(
                "ssh agent"@,
                mechanism(upstream)
                    + ", ssh-add was unavailable, the upstream shim reports the agent is reachable"@,
            )
        } else {
            failed(
                "ssh agent"@,
                mechanism(upstream)
                    + ", ssh-add was unavailable and the upstream shim could not reach the agent"@,
                ssh_remedy(),
            )
        },
    }
}

/// What the shim's attempt says of the agent.
pub fn check_ssh_liveness(outcome: &ProbeOutcome, upstream: &str) -> (r: CheckRow)
    ensures
        r@ == liveness_row(*outcome, upstream@),
{
    let how = ssh_mechanism_label(upstream);
    match decidable(outcome, "ssh agent", remediation_ssh_agent()) {
        Some(row) => {
            return row;
        },
        None => {},
    }
    let answered = match outcome {
        ProbeOutcome::Ran(result) => result.exit_code == 0,
        _ => false,
    };
    if answered {
        ok_row(
            "ssh agent",
            cat2(
                how,
                ", ssh-add was unavailable, the upstream shim reports the agent is reachable",
            ),
        )
    } else {
        failed_row(
            "ssh agent",
            cat2(
                how,
                ", ssh-add was unavailable and the upstream shim could not reach the agent",
            ),
            remediation_ssh_agent(),
        )
    }
}

// ---------------------------------------------------------------------------
// Docker in the container
// ---------------------------------------------------------------------------

/// The command that asks the container's own daemon for its version.
pub fn dind_command() -> (r: Vec<String>)
    ensures
        texts(r@) == login_args("docker version --format '{{.Server.Version}}'"@),
{
    probe_cmd(owned("docker version --format '{{.Server.Version}}'"))
}

/// A character of a version.
pub open spec fn version_char(c: char) -> bool {
    digit(c) || 'a' <= c <= 'z' || 'A' <= c <= 'Z' || c == '.' || c == '-' || c == '+' || c == '_'
}

/// It opens with a digit and has nothing but characters of a version.
pub open spec fn version_like(line: Seq<char>) -> bool {
    line.len() > 0 && digit(line[0]) && forall|i: int|
        0 <= i < line.len() ==> version_char(#[trigger] line[i])
}

/// Whether a line looks like a version.
pub fn looks_like_version(line: &str) -> (r: bool)
    ensures
        r == version_like(line@),
{
    let v = chars_of(line);
    if v.len() == 0 || !is_digit(v[0]) {
        return false;
    }
    let mut i: usize = 0;
    while i < v.len()
        invariant
            v@ == line@,
            i <= v@.len(),
            forall|j: int| 0 <= j < i ==> version_char(#[trigger] v@[j]),
        decreases v@.len() - i,
    {
        let c = v[i];
        if !(is_digit(c) || ('a' <= c && c <= 'z') || ('A' <= c && c <= 'Z') || c == '.' || c == '-' || c
            == '+' || c == '_') {
            assert(!version_char(line@[i as int]));
            return false;
        }
        i = i + 1;
    }
    true
}

/// The version on a line, if that is all there is on it.
pub open spec fn version_on(line: Seq<char>) -> Option<Seq<char>> {
    if version_like(trimmed(line)) {
        Some(trimmed(line))
    } else {
        None
    }
}

/// The version that was printed: the first line that is one.
pub open spec fn dind_version(stdout: Seq<char>) -> Option<Seq<char>> {
    first_on(lines_of(stdout), |line: Seq<char>| version_on(line))
}

/// The version that was printed: the first line that is one. A shell's banner
/// is passed over.
pub fn parse_dind_version(stdout: &str) -> (r: Option<String>)
    ensures
        text_opt(r) == dind_version(stdout@),
{
    let all = lines(stdout);
    let ghost text = lines_of(stdout@);
    let ghost f = |line: Seq<char>| version_on(line);
    let mut i: usize = 0;
    assert(text.skip(0) == text);
    while i < all.len()
        invariant
            texts(all@) == text,
            f == (|line: Seq<char>| version_on(line)),
            i <= all@.len(),
            first_on(text, f) == first_on(text.skip(i as int), f),
            text == lines_of(stdout@),
        decreases all@.len() - i,
    {
        proof {
            assert(text[i as int] == all@[i as int]@);
            assert(text.skip(i as int)[0] == text[i as int]);
            assert(text.skip(i as int).drop_first() == text.skip(i + 1));
        }
        let line = trim(all[i].as_str());
        if looks_like_version(line.as_str()) {
            return Some(line);
        }
        i = i + 1;
    }
    None
}

/// What to do about a daemon that cannot be reached.
pub open spec fn dind_remedy() -> Seq<char> {
    "The Docker daemon inside this container is not reachable.\n\n  The docker-in-docker feature contributes `privileged` and its entrypoint through the image's `devcontainer.metadata` label; an image built without that label loses both. Rebuild it: `dev build --no-cache && dev up`\n\nThen try `dev status` again."@
}

/// What to do about a daemon that cannot be reached.
pub fn remediation_dind() -> (r: String)
    ensures
        r@ == dind_remedy(),
{
    owned(
        "The Docker daemon inside this container is not reachable.\n\n  The docker-in-docker feature contributes `privileged` and its entrypoint through the image's `devcontainer.metadata` label; an image built without that label loses both. Rebuild it: `dev build --no-cache && dev up`\n\nThen try `dev status` again.",
    )
}

/// What the outcome says of the container's own daemon.
pub open spec fn dind_row(outcome: ProbeOutcome) -> RowView {
    match plain_failure(outcome) {
        Some(detail) => failed("dind"@, detail, dind_remedy()),
        None => match outcome {
            ProbeOutcome::Ran(result) => if result.exit_code == 0 {
                match dind_version(result.stdout@) {
                    Some(version) => passed("dind"@, "server "@ + version),
                    None => passed("dind"@, "the daemon answered but reported no server version"@),
                }
            } else {
                failed("dind"@, trimmed(result.stderr@), dind_remedy())
            },
            _ => skipped("dind"@, "no docker CLI in this container"@),
        },
    }
}

/// What the outcome says of the container's own daemon.
pub fn check_dind(outcome: &ProbeOutcome) -> (r: CheckRow)
    ensures
        r@ == dind_row(*outcome),
{
    match decidable(outcome, "dind", remediation_dind()) {
        Some(row) => {
            return row;
        },
        None => {},
    }
    match outcome {
        ProbeOutcome::Ran(result) => {
            if result.exit_code == 0 {
                match parse_dind_version(result.stdout.as_str()) {
                    Some(version) => ok_row("dind", cat2("server ", version.as_str())),
                    None => ok_row("dind", owned("the daemon answered but reported no server version")),
                }
            } else {
                failed_row("dind", trim(result.stderr.as_str()), remediation_dind())
            }
        },
        _ => skip_row("dind", owned("no docker CLI in this container")),
    }
}

// ---------------------------------------------------------------------------
// The cmux relay
// ---------------------------------------------------------------------------

/// What to do about a shim that does not answer.
pub open spec fn relay_remedy() -> Seq<char> {
    "The cmux agent shim did not answer.\n\n  Recreate the container so the relay is reachable again: `dev down && dev up`\n\nThen try `dev status` again."@
}

/// What to do about a shim that does not answer.
pub fn remediation_cmux_relay() -> (r: String)
    ensures
        r@ == relay_remedy(),
{
    owned(
        "The cmux agent shim did not answer.\n\n  Recreate the container so the relay is reachable again: `dev down && dev up`\n\nThen try `dev status` again.",
    )
}

/// Why the relay is not tried, if it is not: the project does not want it, the
/// host cannot be called back, or there is none to try.
pub open spec fn relay_skipped(enabled: bool, no_callback: Option<Seq<char>>, relay_open: bool) -> Option<
    Seq<char>,
> {
    if !enabled {
        Some("cmux.agent is not enabled for this project"@)
    } else {
        match no_callback {
            Some(reason) => Some(reason),
            None => if relay_open {
                None
            } else {
                Some(
                    "no relay to ping: no cmux in this terminal, or its host listener did not open"@,
                )
            },
        }
    }
}

/// The row of a relay that is not tried, if it is not. `no_callback` is why the
/// host cannot be called back; `relay_open` only matters where the other two
/// allow a relay.
pub fn skip_cmux_relay(enabled: bool, no_callback: &Option<String>, relay_open: bool) -> (r: Option<
    CheckRow,
>)
    ensures
        match relay_skipped(enabled, text_opt(*no_callback), relay_open) {
            Some(detail) => r is Some && r->Some_0@ == skipped("cmux relay"@, detail),
            None => r is None,
        },
{
    if !enabled {
        return Some(skip_row("cmux relay", owned("cmux.agent is not enabled for this project")));
    }
    match no_callback {
        Some(reason) => Some(skip_row("cmux relay", reason.clone())),
        None => {
            if relay_open {
                None
            } else {
                Some(
                    skip_row(
                        "cmux relay",
                        owned(
                            "no relay to ping: no cmux in this terminal, or its host listener did not open",
                        ),
                    ),
                )
            }
        },
    }
}

/// What the ping says of the relay.
pub open spec fn ping_row(outcome: ProbeOutcome) -> RowView {
    match plain_failure(outcome) {
        Some(detail) => failed("cmux relay"@, detail, relay_remedy()),
        None => match outcome {
            ProbeOutcome::Ran(result) => if result.exit_code == 0 {
                passed("cmux relay"@, "shim answered"@)
            } else {
                failed("cmux relay"@, "the shim did not answer the ping"@, relay_remedy())
            },
            _ => skipped(
                "cmux relay"@,
                "the cmux-agent feature is not installed in this container"@,
            ),
        },
    }
}

/// The shim answered the ping.
pub open spec fn ping_answered(outcome: ProbeOutcome) -> bool {
    outcome is Ran && outcome->Ran_0.exit_code == 0
}

/// What the ping says of the relay, and of what containers can reach: one that
/// was answered reached the host's loopback, any other says nothing.
pub fn interpret_cmux_ping(outcome: &ProbeOutcome, access: &HostAccess) -> (r: (CheckRow, Option<HostAccess>))
    ensures
        r.0@ == ping_row(*outcome),
        r.1 == (if ping_answered(*outcome) {
            Some(access.loopback_verified(true))
        } else {
            None::<HostAccess>
        }),
{
    match decidable(outcome, "cmux relay", remediation_cmux_relay()) {
        Some(row) => {
            return (row, None);
        },
        None => {},
    }
    match outcome {
        ProbeOutcome::Ran(result) => {
            if result.exit_code == 0 {
                (
                    ok_row("cmux relay", owned("shim answered")),
                    Some(access.copy().with_loopback_verified(true)),
                )
            } else {
                (
                    failed_row(
                        "cmux relay",
                        owned("the shim did not answer the ping"),
                        remediation_cmux_relay(),
                    ),
                    None,
                )
            }
        },
        _ => (
            skip_row(
                "cmux relay",
                owned("the cmux-agent feature is not installed in this container"),
            ),
            None,
        ),
    }
}

// ---------------------------------------------------------------------------
// What holds of every row
// ---------------------------------------------------------------------------

/// Only a check that failed comes with something to do about it, and every one
/// that failed does.
pub proof fn remedies_are_for_failures(
    outcome: ProbeOutcome,
    alias: Seq<char>,
    upstream: Seq<char>,
    feature_name: Seq<char>,
)
    ensures
        host_alias_row(outcome, alias).remediation is Some <==> host_alias_row(outcome, alias).status is Failed,
        ssh_first(outcome, feature_name) matches Ok(row) ==> (row.remediation is Some <==> row.status is Failed),
        liveness_row(outcome, upstream).remediation is Some <==> liveness_row(outcome, upstream).status is Failed,
        dind_row(outcome).remediation is Some <==> dind_row(outcome).status is Failed,
        ping_row(outcome).remediation is Some <==> ping_row(outcome).status is Failed,
{
}

/// The shim is tried only for an upstream that it speaks for, and only where
/// `ssh-add` gave no answer.
pub proof fn shim_is_tried_only_for_its_upstreams(facts: SshView, feature_name: Seq<char>)
    requires
        ssh_verdict(facts, feature_name) is None,
    ensures
        begins_with(facts.upstream, "tcp:"@),
        facts.shim_executable,
        facts.ssh_add is Missing,
{
}

/// An agent that answered is never reported as failed, one that was configured
/// and refused always is.
pub proof fn answers_decide(facts: SshView, feature_name: Seq<char>)
    requires
        !no_agent(facts),
        facts.shim_executable || !begins_with(facts.upstream, "tcp:"@),
        facts.ssh_add is Answered,
    ensures
        ssh_verdict(facts, feature_name) matches Some(v) && (v.0 is Passed <==> (
        facts.ssh_add->exit_code == 0 || facts.ssh_add->exit_code == 1)) && !(v.0 is Skipped),
{
}

} // verus!

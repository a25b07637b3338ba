//! The host's end of the relay that lets an agent in a container report to
//! cmux.
use vstd::prelude::*;

use crate::model::ExecResult;
use crate::number::{decimal_of, read_usize, show_unsigned, unsigned_of};
use crate::text::{
    cat2, cat3, chars_of, holds_text, joined, lines, lines_of, owned, pieces, same, split, text_opt, texts,
    trim, trim_newlines, trimmed, without_newlines,
};
use crate::up::secrets::SecretValue;

verus! {

/// The framing that relay and shim agree on.
pub const PROTOCOL: &'static str = "dev-cmux/1";

/// Where the shim and the wrappers are in the container.
pub const SHIM_DIR: &'static str = "/usr/local/share/dev-cmux/bin";

/// Where the shim is in the container.
pub const SHIM_PATH: &'static str = "/usr/local/share/dev-cmux/bin/cmux";

/// The agent that the relay serves. Which one it is, is for whoever opens the relay
/// to say.
#[derive(Debug, PartialEq, Eq)]
pub struct Agent {
    /// Its command's name, which is also what its hooks go by.
    pub name: String,
    /// The name of the wrapper that stands in for it, beside the host's cmux.
    pub wrapper: String,
}

/// A socket that wrappers look for; nothing connects to it.
pub const SOCKET_PATH: &'static str = "/tmp/dev-cmux.sock";

/// The script that makes the socket.
pub const SOCKET_SCRIPT: &'static str = "use Socket; unlink $ARGV[0]; socket(S, PF_UNIX, SOCK_STREAM, 0) || exit 1; bind(S, sockaddr_un($ARGV[0])) || exit 1; listen(S, 1) || exit 1;";

/// The longest line that is read, in bytes.
pub const MAX_HEADER: u64 = 512;

/// The most arguments that a request may have.
pub const MAX_ARGS: usize = 8;

/// The longest body that a request may have, in bytes.
pub const MAX_BODY: usize = 1_048_576;

// ---------------------------------------------------------------------------
// The session
// ---------------------------------------------------------------------------

/// The digit of a value below sixteen.
pub open spec fn hex_char(n: int) -> char {
    if n < 10 {
        (('0' as int) + n) as char
    } else {
        (('a' as int) + (n - 10)) as char
    }
}

/// Bytes in hexadecimal: two lower-case digits each, the higher one first.
pub open spec fn hex_text(bytes: Seq<u8>) -> Seq<char>
    decreases bytes.len(),
{
    if bytes.len() == 0 {
        Seq::empty()
    } else {
        hex_text(bytes.drop_last()).push(hex_char(bytes.last() as int / 16)).push(
            hex_char(bytes.last() as int % 16),
        )
    }
}

/// `hex::encode` writes each byte as two lower-case hexadecimal digits.
#[verifier::external_body]
fn hex_encode(bytes: &Vec<u8>) -> (r: String)
    ensures
        r@ == hex_text(bytes@),
{
    hex::encode(bytes)
}

/// A session's token, from random bytes.
pub fn mint_token(bytes: &Vec<u8>) -> (r: String)
    ensures
        r@ == hex_text(bytes@),
{
    hex_encode(bytes)
}

/// A token is twice as long as the bytes it is made of.
pub proof fn token_length(bytes: Seq<u8>)
    ensures
        hex_text(bytes).len() == 2 * bytes.len(),
    decreases bytes.len(),
{
    if bytes.len() > 0 {
        token_length(bytes.drop_last());
    }
}

/// No two sequences of bytes make the same token.
pub proof fn tokens_differ(a: Seq<u8>, b: Seq<u8>)
    requires
        hex_text(a) == hex_text(b),
    ensures
        a == b,
    decreases a.len(),
{
    token_length(a);
    token_length(b);
    if a.len() > 0 {
        let (x, y) = (a.last() as int, b.last() as int);
        let n = hex_text(a).len();
        assert(hex_text(a)[n - 1] == hex_char(x % 16));
        assert(hex_text(b)[n - 1] == hex_char(y % 16));
        assert(hex_text(a)[n - 2] == hex_char(x / 16));
        assert(hex_text(b)[n - 2] == hex_char(y / 16));
        hex_char_injective(x % 16, y % 16);
        hex_char_injective(x / 16, y / 16);
        assert(x == y);
        assert(hex_text(a).take(n - 2) =~= hex_text(a.drop_last()));
        assert(hex_text(b).take(n - 2) =~= hex_text(b.drop_last()));
        tokens_differ(a.drop_last(), b.drop_last());
        assert(a =~= a.drop_last().push(a.last()));
        assert(b =~= b.drop_last().push(b.last()));
    } else {
        assert(a =~= b);
    }
}

proof fn hex_char_injective(a: int, b: int)
    requires
        0 <= a < 16,
        0 <= b < 16,
        hex_char(a) == hex_char(b),
    ensures
        a == b,
{
}

/// The texts of named secrets.
pub open spec fn env_texts(env: Seq<(String, SecretValue)>) -> Seq<(Seq<char>, Seq<char>)> {
    crate::up::secrets::secret_texts(env)
}

/// A variable that is handed on where the host has it.
pub open spec fn handed_on(name: Seq<char>, value: Option<Seq<char>>) -> Seq<(Seq<char>, Seq<char>)> {
    match value {
        Some(v) => seq![(name, v)],
        None => Seq::empty(),
    }
}

/// The environment that points an agent's wrapper at the relay.
pub open spec fn relay_vars(
    port: nat,
    token: Seq<char>,
    surface_id: Option<Seq<char>>,
    workspace_id: Option<Seq<char>>,
) -> Seq<(Seq<char>, Seq<char>)> {
    seq![
        ("DEV_CMUX_RELAY"@, "host.docker.internal:"@ + decimal_of(port)),
        ("DEV_CMUX_TOKEN"@, token),
        ("CMUX_SOCKET_PATH"@, SOCKET_PATH@),
        ("CMUX_BUNDLED_CLI_PATH"@, SHIM_PATH@),
    ] + handed_on("CMUX_SURFACE_ID"@, surface_id) + handed_on("CMUX_WORKSPACE_ID"@, workspace_id)
}

/// The environment that points an agent's wrapper at the relay: its address,
/// the token, the socket and the shim, and what the host has of cmux's ids.
pub fn relay_env(port: u16, token: &str, surface_id: &Option<String>, workspace_id: &Option<String>) -> (r: Vec<
    (String, SecretValue),
>)
    ensures
        env_texts(r@) == relay_vars(port as nat, token@, text_opt(*surface_id), text_opt(*workspace_id)),
{
    let n = show_unsigned(port as u64);
    let address = cat2("host.docker.internal:", n.as_str());
    let mut env: Vec<(String, SecretValue)> = Vec::new();
    env.push((owned("DEV_CMUX_RELAY"), SecretValue::new(address.as_str())));
    env.push((owned("DEV_CMUX_TOKEN"), SecretValue::new(token)));
    env.push((owned("CMUX_SOCKET_PATH"), SecretValue::new(SOCKET_PATH)));
    env.push((owned("CMUX_BUNDLED_CLI_PATH"), SecretValue::new(SHIM_PATH)));
    match surface_id {
        Some(value) => {
            env.push((owned("CMUX_SURFACE_ID"), SecretValue::new(value.as_str())));
        },
        None => {},
    }
    match workspace_id {
        Some(value) => {
            env.push((owned("CMUX_WORKSPACE_ID"), SecretValue::new(value.as_str())));
        },
        None => {},
    }
    assert(env_texts(env@) =~= relay_vars(
        port as nat,
        token@,
        text_opt(*surface_id),
        text_opt(*workspace_id),
    ));
    env
}

// ---------------------------------------------------------------------------
// Requests
// ---------------------------------------------------------------------------

/// What a header asks for: the number of arguments and the length of the body.
/// Refused unless it has exactly four fields, the protocol, the token, and two
/// numbers within their limits.
pub open spec fn header_of(line: Seq<char>, token: Seq<char>) -> Option<(nat, nat)> {
    let fields = pieces(line, ' ');
    if fields.len() == 4 && fields[0] == PROTOCOL@ && fields[1] == token {
        match (unsigned_of(fields[2], usize::MAX as nat), unsigned_of(fields[3], usize::MAX as nat)) {
            (Some(argc), Some(body_len)) => if 1 <= argc <= MAX_ARGS && body_len <= MAX_BODY {
                Some((argc, body_len))
            } else {
                None
            },
            _ => None,
        }
    } else {
        None
    }
}

/// What a header asks for, or nothing where it is refused. Why is never said.
pub fn parse_header(line: &str, token: &str) -> (r: Option<(usize, usize)>)
    ensures
        match header_of(line@, token@) {
            Some((argc, body_len)) => r == Some((argc as usize, body_len as usize)),
            None => r is None,
        },
{
    let fields = split(line, ' ');
    let ghost all = pieces(line@, ' ');
    assert(all.len() == fields@.len());
    if fields.len() != 4 {
        return None;
    }
    proof {
        assert(all[0] == fields@[0]@);
        assert(all[1] == fields@[1]@);
        assert(all[2] == fields@[2]@);
        assert(all[3] == fields@[3]@);
    }
    let argc = match read_usize(fields[2].as_str()) {
        Some(n) => n,
        None => {
            return None;
        },
    };
    let body_len = match read_usize(fields[3].as_str()) {
        Some(n) => n,
        None => {
            return None;
        },
    };
    if !same(fields[0].as_str(), PROTOCOL) || !same(fields[1].as_str(), token) {
        return None;
    }
    if 1 <= argc && argc <= MAX_ARGS && body_len <= MAX_BODY {
        Some((argc, body_len))
    } else {
        None
    }
}

/// A request with another token, or under another protocol, is refused whatever
/// else it says.
pub proof fn only_the_session_is_served(line: Seq<char>, token: Seq<char>)
    requires
        header_of(line, token) is Some,
    ensures
        pieces(line, ' ').len() == 4,
        pieces(line, ' ')[0] == PROTOCOL@,
        pieces(line, ' ')[1] == token,
        1 <= header_of(line, token)->Some_0.0 <= MAX_ARGS,
        header_of(line, token)->Some_0.1 <= MAX_BODY,
{
}

/// The header of a request, as the shim writes it.
pub open spec fn header_text(token: Seq<char>, argc: nat, body_len: nat) -> Seq<char> {
    joined(seq![PROTOCOL@, token, decimal_of(argc), decimal_of(body_len)], " "@)
}

proof fn pieces_of_clean(s: Seq<char>, sep: char)
    requires
        !s.contains(sep),
    ensures
        pieces(s, sep) == seq![s],
    decreases s.len(),
{
    if s.len() > 0 {
        let t = s.drop_last();
        assert forall|c: char| t.contains(c) implies s.contains(c) by {
            let i = choose|i: int| 0 <= i < t.len() && t[i] == c;
            assert(s[i] == c);
        }
        assert(s[s.len() - 1] == s.last());
        assert(s.last() != sep);
        pieces_of_clean(t, sep);
        assert(pieces(s, sep) =~= seq![t.push(s.last())]);
        assert(t.push(s.last()) == s);
    } else {
        assert(s =~= Seq::<char>::empty());
    }
}

proof fn pieces_of_more(a: Seq<char>, sep: char, b: Seq<char>)
    requires
        !b.contains(sep),
    ensures
        pieces(a + seq![sep] + b, sep) == pieces(a, sep).push(b),
    decreases b.len(),
{
    let s = a + seq![sep] + b;
    crate::text::pieces_nonempty(a, sep);
    if b.len() == 0 {
        assert(s =~= a.push(sep));
        assert(s.drop_last() =~= a);
        assert(b =~= Seq::<char>::empty());
    } else {
        let t = b.drop_last();
        assert forall|c: char| t.contains(c) implies b.contains(c) by {
            let i = choose|i: int| 0 <= i < t.len() && t[i] == c;
            assert(b[i] == c);
        }
        assert(b[b.len() - 1] == b.last());
        pieces_of_more(a, sep, t);
        assert(s.drop_last() =~= a + seq![sep] + t);
        assert(s.last() == b.last());
        let before = pieces(a, sep).push(t);
        assert(before.update(before.len() - 1, before.last().push(b.last())) =~= pieces(a, sep).push(
            t.push(b.last()),
        ));
        assert(t.push(b.last()) == b);
    }
}

proof fn decimal_has_no_space(n: nat)
    ensures
        !decimal_of(n).contains(' '),
    decreases n,
{
    if n >= 10 {
        decimal_has_no_space(n / 10);
        let s = decimal_of(n);
        if s.contains(' ') {
            let i = choose|i: int| 0 <= i < s.len() && s[i] == ' ';
            if i < s.len() - 1 {
                assert(decimal_of(n / 10)[i] == ' ');
                assert(decimal_of(n / 10).contains(' '));
            }
        }
    }
}

/// A header that the shim writes for the session is accepted and says what the
/// shim meant, for every count within the limits.
pub proof fn written_headers_are_read_back(token: Seq<char>, argc: nat, body_len: nat)
    requires
        !token.contains(' '),
        1 <= argc <= MAX_ARGS,
        body_len <= MAX_BODY,
    ensures
        header_of(header_text(token, argc, body_len), token) == Some((argc, body_len)),
{
    let parts = seq![PROTOCOL@, token, decimal_of(argc), decimal_of(body_len)];
    reveal_strlit(" ");
    assert(" "@ =~= seq![' ']);
    reveal_strlit("dev-cmux/1");
    assert(!PROTOCOL@.contains(' ')) by {
        assert(PROTOCOL@.len() == 10);
        assert forall|i: int| 0 <= i < 10 implies PROTOCOL@[i] != ' ' by {}
    }
    decimal_has_no_space(argc);
    decimal_has_no_space(body_len);
    let one = parts.take(1);
    let two = parts.take(2);
    let three = parts.take(3);
    assert(two.drop_last() =~= one);
    assert(three.drop_last() =~= two);
    assert(parts.drop_last() =~= three);
    let t1 = PROTOCOL@;
    let t2 = t1 + seq![' '] + token;
    let t3 = t2 + seq![' '] + decimal_of(argc);
    let t4 = t3 + seq![' '] + decimal_of(body_len);
    assert(joined(one, " "@) == t1);
    assert(joined(two, " "@) == t2);
    assert(joined(three, " "@) == t3);
    assert(joined(parts, " "@) == t4);
    pieces_of_clean(t1, ' ');
    pieces_of_more(t1, ' ', token);
    pieces_of_more(t2, ' ', decimal_of(argc));
    pieces_of_more(t3, ' ', decimal_of(body_len));
    assert(pieces(t4, ' ') =~= parts);
    crate::number::decimal_reads_back(argc, usize::MAX as nat);
    crate::number::decimal_reads_back(body_len, usize::MAX as nat);
}

/// A lower-case letter.
pub open spec fn lower(c: char) -> bool {
    'a' <= c <= 'z'
}

/// A word of lower-case letters, not empty.
pub open spec fn lower_word(word: Seq<char>) -> bool {
    word.len() > 0 && forall|i: int| 0 <= i < word.len() ==> lower(#[trigger] word[i])
}

/// Words of lower-case letters with single dashes between, at most forty
/// characters in all.
pub open spec fn event_name(event: Seq<char>) -> bool {
    &&& 0 < event.len() <= 40
    &&& forall|i: int| 0 <= i < pieces(event, '-').len() ==> lower_word(#[trigger] pieces(event, '-')[i])
}

fn is_lower_word(word: &str) -> (r: bool)
    ensures
        r == lower_word(word@),
{
    let v = chars_of(word);
    if v.len() == 0 {
        return false;
    }
    let mut i: usize = 0;
    while i < v.len()
        invariant
            v@ == word@,
            i <= v@.len(),
            forall|j: int| 0 <= j < i ==> lower(#[trigger] v@[j]),
        decreases v@.len() - i,
    {
        let c = v[i];
        if !('a' <= c && c <= 'z') {
            assert(!lower(word@[i as int]));
            return false;
        }
        i = i + 1;
    }
    true
}

/// Whether this has the shape of an event's name.
pub fn is_event_name(event: &str) -> (r: bool)
    ensures
        r == event_name(event@),
{
    let total: usize = event.unicode_len();
    if total == 0 || total > 40 {
        return false;
    }
    let words = split(event, '-');
    let ghost all = pieces(event@, '-');
    assert(all.len() == words@.len());
    let mut i: usize = 0;
    while i < words.len()
        invariant
            all == pieces(event@, '-'),
            texts(words@) == all,
            all.len() == words@.len(),
            i <= words@.len(),
            forall|j: int| 0 <= j < i ==> lower_word(#[trigger] all[j]),
        decreases words@.len() - i,
    {
        assert(all[i as int] == words@[i as int]@);
        if !is_lower_word(words[i].as_str()) {
            return false;
        }
        i = i + 1;
    }
    true
}

/// A verb that has cmux write files on the machine it runs on.
pub open spec fn write_verb(arg: Seq<char>) -> bool {
    arg == "install"@ || arg == "uninstall"@ || arg == "setup"@ || arg == "inject-args"@
}

/// The verbs that have cmux write files on the machine it runs on.
pub fn write_verbs() -> (r: Vec<String>)
    ensures
        texts(r@) == seq!["install"@, "uninstall"@, "setup"@, "inject-args"@],
{
    let v: Vec<String> = vec![
        owned("install"),
        owned("uninstall"),
        owned("setup"),
        owned("inject-args"),
    ];
    assert(texts(v@) =~= seq!["install"@, "uninstall"@, "setup"@, "inject-args"@]);
    v
}

/// What the relay runs: a ping, and what the agent's hooks report; never anything
/// with a verb that writes.
pub open spec fn allowed(args: Seq<Seq<char>>, agent: Seq<char>) -> bool {
    &&& forall|i: int| 0 <= i < args.len() ==> !write_verb(#[trigger] args[i])
    &&& {
        ||| args == seq!["ping"@]
        ||| args.len() == 3 && args[0] == "hooks"@ && args[1] == agent && event_name(args[2])
        ||| args == seq!["hooks"@, "feed"@, "--source"@, agent]
    }
}

/// Whether the relay runs this.
pub fn verb_allowed(args: &Vec<String>, agent: &str) -> (r: bool)
    ensures
        r == allowed(texts(args@), agent@),
{
    let ghost all = texts(args@);
    assert(all.len() == args@.len());
    let mut i: usize = 0;
    while i < args.len()
        invariant
            all == texts(args@),
            i <= args@.len(),
            forall|j: int| 0 <= j < i ==> !write_verb(#[trigger] all[j]),
        decreases args@.len() - i,
    {
        assert(all[i as int] == args@[i as int]@);
        if same(args[i].as_str(), "install") || same(args[i].as_str(), "uninstall") || same(
            args[i].as_str(),
            "setup",
        ) || same(args[i].as_str(), "inject-args") {
            assert(write_verb(all[i as int]));
            return false;
        }
        i = i + 1;
    }
    if args.len() == 1 {
        assert(all[0] == args@[0]@);
        let r = same(args[0].as_str(), "ping");
        assert(r ==> all =~= seq!["ping"@]);
        return r;
    }
    if args.len() == 3 {
        assert(all[0] == args@[0]@ && all[1] == args@[1]@ && all[2] == args@[2]@);
        return same(args[0].as_str(), "hooks") && same(args[1].as_str(), agent) && is_event_name(
            args[2].as_str(),
        );
    }
    if args.len() == 4 {
        assert(all[0] == args@[0]@ && all[1] == args@[1]@ && all[2] == args@[2]@ && all[3] == args@[3]@);
        let r = same(args[0].as_str(), "hooks") && same(args[1].as_str(), "feed") && same(
            args[2].as_str(),
            "--source",
        ) && same(args[3].as_str(), agent);
        assert(r ==> all =~= seq!["hooks"@, "feed"@, "--source"@, agent@]);
        return r;
    }
    false
}

/// Nothing that has a verb that writes anywhere in it is run, whatever the rest
/// says.
pub proof fn writing_is_never_allowed(args: Seq<Seq<char>>, agent: Seq<char>, i: int)
    requires
        0 <= i < args.len(),
        write_verb(args[i]),
    ensures
        !allowed(args, agent),
{
}

/// A request that is being read.
pub struct Request {
    argc: usize,
    body_len: usize,
    args: Vec<String>,
}

/// What is done about a request.
#[derive(Debug, PartialEq, Eq)]
pub enum Answer {
    /// It is closed without a reply.
    Refuse,
    /// It is answered at once, with nothing.
    Pong,
    /// It is run, and its output is the reply.
    Forward,
}

impl Request {
    /// How many arguments it has in all.
    pub closed spec fn argc(&self) -> nat {
        self.argc as nat
    }

    /// How long its body is.
    pub closed spec fn body(&self) -> nat {
        self.body_len as nat
    }

    /// The arguments that were read.
    pub closed spec fn args(&self) -> Seq<Seq<char>> {
        texts(self.args@)
    }

    /// There are no more arguments than were announced, and no more of anything
    /// than is allowed.
    pub open spec fn wf(&self) -> bool {
        &&& self.args().len() <= self.argc()
        &&& 1 <= self.argc() <= MAX_ARGS
        &&& self.body() <= MAX_BODY
    }

    /// Open a request by its first line. A line that is empty, or that no header
    /// of the session's is on, opens none.
    pub fn open(line: &str, token: &str) -> (r: Option<Request>)
        ensures
            line@.len() == 0 ==> r is None,
            line@.len() > 0 ==> match header_of(without_newlines(line@), token@) {
                Some((argc, body_len)) => {
                    &&& r is Some
                    &&& r->Some_0.wf()
                    &&& r->Some_0.argc() == argc
                    &&& r->Some_0.body() == body_len
                    &&& r->Some_0.args() == Seq::<Seq<char>>::empty()
                },
                None => r is None,
            },
    {
        if line.is_empty() {
            return None;
        }
        let header = trim_newlines(line);
        match parse_header(header.as_str(), token) {
            Some((argc, body_len)) => {
                let args: Vec<String> = Vec::new();
                assert(texts(args@) =~= Seq::<Seq<char>>::empty());
                Some(Request { argc, body_len, args })
            },
            None => None,
        }
    }

    /// Whether another argument is still to be read.
    pub fn wants_arg(&self) -> (r: bool)
        ensures
            r == (self.args().len() < self.argc()),
    {
        assert(texts(self.args@).len() == self.args@.len());
        self.args.len() < self.argc
    }

    /// Take the line of another argument.
    pub fn push_arg(&mut self, line: &str)
        requires
            old(self).wf(),
            old(self).args().len() < old(self).argc(),
        ensures
            final(self).wf(),
            final(self).argc() == old(self).argc(),
            final(self).body() == old(self).body(),
            final(self).args() == old(self).args().push(without_newlines(line@)),
    {
        let arg = trim_newlines(line);
        let ghost before = texts(self.args@);
        let ghost text = arg@;
        self.args.push(arg);
        assert(texts(self.args@) =~= before.push(text));
    }

    /// How many bytes of body are to be read.
    pub fn body_len(&self) -> (r: usize)
        ensures
            r as nat == self.body(),
    {
        self.body_len
    }

    /// The arguments that were read.
    pub fn arguments(&self) -> (r: &Vec<String>)
        ensures
            texts(r@) == self.args(),
    {
        &self.args
    }

    /// What is done about the request, once it was read.
    pub fn answer(&self, agent: &str) -> (r: Answer)
        ensures
            r == answer_to(self.args(), agent@),
    {
        proof {
            pings_are_allowed(agent@);
        }
        if !verb_allowed(&self.args, agent) {
            return Answer::Refuse;
        }
        assert(texts(self.args@).len() == self.args@.len());
        assert(texts(self.args@)[0] == self.args@[0]@);
        if same(self.args[0].as_str(), "ping") {
            proof {
                reveal_strlit("ping");
                reveal_strlit("hooks");
                assert("ping"@.len() == 4);
                assert("hooks"@.len() == 5);
            }
            assert(self.args() =~= seq!["ping"@]);
            Answer::Pong
        } else {
            Answer::Forward
        }
    }
}

/// What is done about a request with these arguments: what is not allowed is
/// refused, a ping answered, and everything else run.
pub open spec fn answer_to(args: Seq<Seq<char>>, agent: Seq<char>) -> Answer {
    if !allowed(args, agent) {
        Answer::Refuse
    } else if args == seq!["ping"@] {
        Answer::Pong
    } else {
        Answer::Forward
    }
}

/// A ping is always allowed, whatever agent is served.
pub proof fn pings_are_allowed(agent: Seq<char>)
    ensures
        allowed(seq!["ping"@], agent),
{
    reveal_strlit("ping");
    reveal_strlit("install");
    reveal_strlit("uninstall");
    reveal_strlit("setup");
    reveal_strlit("inject-args");
    assert("ping"@.len() == 4);
    assert("install"@.len() == 7);
    assert("uninstall"@.len() == 9);
    assert("setup"@.len() == 5);
    assert("inject-args"@.len() == 11);
    assert(!write_verb("ping"@));
}

/// The line before a reply: that it is one, and how long it is.
pub open spec fn reply_line(len: nat) -> Seq<char> {
    "ok "@ + decimal_of(len) + "\n"@
}

/// The line before a reply: that it is one, and how long it is.
pub fn reply_header(len: usize) -> (r: String)
    ensures
        r@ == reply_line(len as nat),
{
    let n = show_unsigned(len as u64);
    cat3("ok ", n.as_str(), "\n")
}

/// What is sent back, if anything: nothing where the request was refused or what
/// it asked for failed, else the line and then the output. A ping has none.
pub open spec fn reply_to(answer: Answer, output: Option<Seq<u8>>) -> Option<Seq<u8>> {
    match (answer, output) {
        (Answer::Refuse, _) => None,
        (Answer::Pong, _) => Some(vstd::utf8::encode_utf8(reply_line(0))),
        (Answer::Forward, Some(bytes)) => Some(vstd::utf8::encode_utf8(reply_line(bytes.len())) + bytes),
        (Answer::Forward, None) => None,
    }
}

/// What is sent back, if anything. `output` is what the run printed, if it
/// succeeded.
pub fn reply(answer: Answer, output: Option<Vec<u8>>) -> (r: Option<Vec<u8>>)
    ensures
        match reply_to(
            answer,
            match output {
                Some(bytes) => Some(bytes@),
                None => None,
            },
        ) {
            Some(sent) => r is Some && r->Some_0@ == sent,
            None => r is None,
        },
{
    match answer {
        Answer::Refuse => None,
        Answer::Pong => {
            let line = reply_header(0);
            let mut sent: Vec<u8> = Vec::new();
            push_bytes(&mut sent, line.as_str());
            assert(sent@ =~= vstd::utf8::encode_utf8(line@));
            Some(sent)
        },
        Answer::Forward => match output {
            None => None,
            Some(bytes) => {
                let line = reply_header(bytes.len());
                let mut sent: Vec<u8> = Vec::new();
                push_bytes(&mut sent, line.as_str());
                assert(sent@ =~= vstd::utf8::encode_utf8(line@));
                let ghost head = sent@;
                let mut rest = bytes;
                sent.append(&mut rest);
                assert(sent@ =~= head + bytes@);
                Some(sent)
            },
        },
    }
}

fn push_bytes(sent: &mut Vec<u8>, line: &str)
    ensures
        final(sent)@ == old(sent)@ + vstd::utf8::encode_utf8(line@),
{
    let bytes = line.as_bytes();
    let ghost had = sent@;
    let mut i: usize = 0;
    while i < bytes.len()
        invariant
            i <= bytes@.len(),
            sent@ == had + bytes@.take(i as int),
        decreases bytes@.len() - i,
    {
        sent.push(bytes[i]);
        i = i + 1;
        assert(bytes@.take(i as int) == bytes@.take(i - 1).push(bytes@[i - 1]));
    }
    assert(bytes@.take(bytes@.len() as int) == bytes@);
}

/// Whatever is run comes from the hooks of the agent that is served: an event of
/// its own, or its feed. A ping is answered without being run, and nothing else is
/// so much as answered.
pub proof fn only_the_served_agents_hooks_are_run(args: Seq<Seq<char>>, agent: Agent)
    ensures
        answer_to(args, agent.name@) is Forward ==> {
            ||| args.len() == 3 && args[0] == "hooks"@ && args[1] == agent.name@ && event_name(args[2])
                && !write_verb(args[2])
            ||| args == seq!["hooks"@, "feed"@, "--source"@, agent.name@]
        },
        answer_to(args, agent.name@) is Pong <==> args == seq!["ping"@],
{
    pings_are_allowed(agent.name@);
}

/// Only what is allowed and is no ping is run, and what came of it is sent back
/// whole; a ping gets the same reply whatever is run elsewhere, and whatever is
/// refused or fails gets none.
pub proof fn only_allowed_requests_are_run_and_replied_to(
    args: Seq<Seq<char>>,
    agent: Seq<char>,
    output: Option<Seq<u8>>,
)
    ensures
        answer_to(args, agent) is Forward <==> allowed(args, agent) && args != seq!["ping"@],
        reply_to(answer_to(args, agent), output) is None <==> !allowed(args, agent) || args != seq!["ping"@] && output is None,
        args == seq!["ping"@] ==> reply_to(answer_to(args, agent), output) == Some(
            vstd::utf8::encode_utf8("ok 0\n"@),
        ),
        answer_to(args, agent) is Forward && output is Some ==> reply_to(answer_to(args, agent), output) == Some(
            vstd::utf8::encode_utf8(reply_line(output->Some_0.len())) + output->Some_0,
        ),
{
    pings_are_allowed(agent);
    if args == seq!["ping"@] {
        reveal_strlit("ok ");
        reveal_strlit("\n");
        reveal_strlit("ok 0\n");
        assert(decimal_of(0) == seq!['0']);
        assert(reply_line(0) =~= "ok 0\n"@);
    }
}

// ---------------------------------------------------------------------------
// The container
// ---------------------------------------------------------------------------

/// The script that asks whether the container has the shim and the agent.
pub open spec fn probe_text(agent: Seq<char>) -> Seq<char> {
    "test -x /usr/local/share/dev-cmux/bin/cmux || exit 1\nfor a in "@ + agent
        + "; do\nIFS=:\nfor d in $PATH; do\n[ \"$d\" = /usr/local/share/dev-cmux/bin ] && continue\nif [ -x \"$d/$a\" ]; then printf '%s\\n' \"$a\"; break; fi\ndone\ndone\nexit 0\n"@
}

/// The script that asks whether the container has the shim and the agent. The
/// shim's own directory does not count.
pub fn probe_script(agent: &str) -> (r: String)
    ensures
        r@ == probe_text(agent@),
{
    cat3(
        "test -x /usr/local/share/dev-cmux/bin/cmux || exit 1\nfor a in ",
        agent,
        "; do\nIFS=:\nfor d in $PATH; do\n[ \"$d\" = /usr/local/share/dev-cmux/bin ] && continue\nif [ -x \"$d/$a\" ]; then printf '%s\\n' \"$a\"; break; fi\ndone\ndone\nexit 0\n",
    )
}

/// The command that asks it, in a login shell.
pub fn probe_command(agent: &str) -> (r: Vec<String>)
    ensures
        texts(r@) == seq!["sh"@, "-lc"@, probe_text(agent@), "dev-cmux"@],
{
    let v: Vec<String> = vec![owned("sh"), owned("-lc"), probe_script(agent), owned("dev-cmux")];
    assert(texts(v@) =~= seq!["sh"@, "-lc"@, probe_text(agent@), "dev-cmux"@]);
    v
}

/// Some line says this and nothing else.
pub open spec fn named_on_a_line(stdout: Seq<char>, agent: Seq<char>) -> bool {
    exists|i: int| 0 <= i < lines_of(stdout).len() && trimmed(#[trigger] lines_of(stdout)[i]) == agent
}

/// The agents that the probe named, of those there is a wrapper for.
pub open spec fn probed_agents(stdout: Seq<char>, agent: Seq<char>) -> Seq<Seq<char>> {
    if named_on_a_line(stdout, agent) {
        seq![agent]
    } else {
        Seq::empty()
    }
}

/// The agents that the probe named, of those there is a wrapper for. Other
/// lines add none.
pub fn parse_probe(stdout: &str, agent: &str) -> (r: Vec<String>)
    ensures
        texts(r@) == probed_agents(stdout@, agent@),
{
    let all = lines(stdout);
    let ghost text = lines_of(stdout@);
    let mut out: Vec<String> = Vec::new();
    let mut i: usize = 0;
    while i < all.len()
        invariant
            text == lines_of(stdout@),
            texts(all@) == text,
            i <= all@.len(),
            out@.len() == 0,
            forall|j: int| 0 <= j < i ==> trimmed(#[trigger] text[j]) != agent@,
        decreases all@.len() - i,
    {
        assert(text[i as int] == all@[i as int]@);
        let line = trim(all[i].as_str());
        if same(line.as_str(), agent) {
            out.push(owned(agent));
            proof {
                assert(trimmed(lines_of(stdout@)[i as int]) == agent@);
                assert(named_on_a_line(stdout@, agent@));
                assert(texts(out@) =~= seq![agent@]);
            }
            return out;
        }
        i = i + 1;
    }
    proof {
        assert(!named_on_a_line(stdout@, agent@));
        assert(texts(out@) =~= Seq::<Seq<char>>::empty());
    }
    out
}

/// The agents that the container can host, from what came of the probe: none
/// where it could not be run, failed, or named none.
pub fn installed_agents(result: &Option<ExecResult>, agent: &str) -> (r: Option<Vec<String>>)
    ensures
        match *result {
            Some(ran) => if ran.exit_code == 0 && probed_agents(ran.stdout@, agent@).len() > 0 {
                r is Some && texts(r->Some_0@) == probed_agents(ran.stdout@, agent@)
            } else {
                r is None
            },
            None => r is None,
        },
{
    match result {
        None => None,
        Some(ran) => {
            if ran.exit_code != 0 {
                return None;
            }
            let agents = parse_probe(ran.stdout.as_str(), agent);
            assert(texts(agents@).len() == agents@.len());
            if agents.len() == 0 {
                None
            } else {
                Some(agents)
            }
        },
    }
}

/// A step of preparing the container.
#[derive(Debug, PartialEq, Eq)]
pub enum PrepareStep {
    /// Copy the wrapper of this name, from beside the host's cmux, to this path.
    CopyWrapper(String, String),
    /// Run this command; it has to succeed.
    Run(Vec<String>),
}

/// Where an agent's wrapper goes.
pub open spec fn wrapper_target(agent: Agent) -> Seq<char> {
    SHIM_DIR@ + "/"@ + agent.name@
}

/// The step copies the agent's wrapper to its place.
pub open spec fn copies_wrapper(step: PrepareStep, agent: Agent) -> bool {
    step matches PrepareStep::CopyWrapper(name, target) && name@ == agent.wrapper@ && target@ == wrapper_target(
        agent,
    )
}

/// The step runs this command.
pub open spec fn runs(step: PrepareStep, command: Seq<Seq<char>>) -> bool {
    step matches PrepareStep::Run(args) && texts(args@) == command
}

/// The command that makes the socket.
pub open spec fn socket_command() -> Seq<Seq<char>> {
    seq!["perl"@, "-e"@, SOCKET_SCRIPT@, "--"@, SOCKET_PATH@]
}

/// The steps of preparing the container, each of which has to succeed for the
/// next: the wrapper of an agent that is wanted is copied and made executable,
/// and then the socket is made.
pub fn prepare_container(agents: &Vec<String>, agent: &Agent) -> (r: Vec<PrepareStep>)
    ensures
        texts(agents@).contains(agent.name@) ==> {
            &&& r@.len() == 3
            &&& copies_wrapper(r@[0], *agent)
            &&& runs(r@[1], seq!["chmod"@, "+x"@, wrapper_target(*agent)])
            &&& runs(r@[2], socket_command())
        },
        !texts(agents@).contains(agent.name@) ==> r@.len() == 1 && runs(r@[0], socket_command()),
{
    let mut out: Vec<PrepareStep> = Vec::new();
    if holds_text(agents, agent.name.as_str()) {
        let target = cat3(SHIM_DIR, "/", agent.name.as_str());
        let chmod: Vec<String> = vec![owned("chmod"), owned("+x"), target.clone()];
        assert(texts(chmod@) =~= seq!["chmod"@, "+x"@, wrapper_target(*agent)]);
        out.push(PrepareStep::CopyWrapper(agent.wrapper.clone(), target));
        out.push(PrepareStep::Run(chmod));
    }
    let socket: Vec<String> = vec![
        owned("perl"),
        owned("-e"),
        owned(SOCKET_SCRIPT),
        owned("--"),
        owned(SOCKET_PATH),
    ];
    assert(texts(socket@) =~= socket_command());
    out.push(PrepareStep::Run(socket));
    out
}

// ---------------------------------------------------------------------------
// What holds of the relay
// ---------------------------------------------------------------------------

/// What relay and shim agree on, and the limits of a request.
pub proof fn what_relay_and_shim_agree_on()
    ensures
        PROTOCOL@ == "dev-cmux/1"@,
        SHIM_DIR@ == "/usr/local/share/dev-cmux/bin"@,
        SHIM_PATH@ == "/usr/local/share/dev-cmux/bin/cmux"@,
        SOCKET_PATH@ == "/tmp/dev-cmux.sock"@,
        MAX_HEADER == 512,
        MAX_ARGS == 8,
        MAX_BODY == 1_048_576,
{
}

/// The sixteen digits of a token, and where the digits of a byte stand: the higher one
/// first.
pub proof fn the_digits_of_a_token(bytes: Seq<u8>, b: u8)
    ensures
        hex_char(0) == '0' && hex_char(1) == '1' && hex_char(2) == '2' && hex_char(3) == '3',
        hex_char(4) == '4' && hex_char(5) == '5' && hex_char(6) == '6' && hex_char(7) == '7',
        hex_char(8) == '8' && hex_char(9) == '9' && hex_char(10) == 'a' && hex_char(11) == 'b',
        hex_char(12) == 'c' && hex_char(13) == 'd' && hex_char(14) == 'e' && hex_char(15) == 'f',
        hex_text(bytes.push(b)) == hex_text(bytes) + seq![hex_char(b as int / 16), hex_char(b as int % 16)],
{
    assert(bytes.push(b).drop_last() =~= bytes);
    assert(hex_text(bytes.push(b)) =~= hex_text(bytes) + seq![hex_char(b as int / 16), hex_char(b as int % 16)]);
}

/// The environment points the wrapper at the relay on the host, and at the socket and the
/// shim in the container; of cmux's ids it has those that the host has.
pub proof fn what_the_wrapper_is_told(
    port: nat,
    token: Seq<char>,
    surface: Option<Seq<char>>,
    workspace: Option<Seq<char>>,
)
    ensures
        ({
            let vars = relay_vars(port, token, surface, workspace);
            &&& vars[0] == ("DEV_CMUX_RELAY"@, "host.docker.internal:"@ + decimal_of(port))
            &&& vars[1] == ("DEV_CMUX_TOKEN"@, token)
            &&& vars[2] == ("CMUX_SOCKET_PATH"@, "/tmp/dev-cmux.sock"@)
            &&& vars[3] == ("CMUX_BUNDLED_CLI_PATH"@, "/usr/local/share/dev-cmux/bin/cmux"@)
            &&& surface matches Some(id) ==> vars[4] == ("CMUX_SURFACE_ID"@, id)
            &&& workspace matches Some(id) ==> vars.last() == ("CMUX_WORKSPACE_ID"@, id)
            &&& vars.len() == 4 + (if surface is Some {
                1nat
            } else {
                0nat
            }) + (if workspace is Some {
                1nat
            } else {
                0nat
            })
        }),
{
}

/// A header whose counts are beyond the limits is refused, and so is one for another
/// session.
pub proof fn headers_beyond_the_limits_are_refused(
    token: Seq<char>,
    other: Seq<char>,
    argc: nat,
    body_len: nat,
)
    requires
        !token.contains(' '),
    ensures
        argc == 0 || argc > 8 || body_len > 1_048_576 ==> header_of(header_text(token, argc, body_len), token) is None,
        other != token ==> header_of(header_text(token, argc, body_len), other) is None,
{
    let a = decimal_of(argc);
    let b = decimal_of(body_len);
    decimal_has_no_space(argc);
    decimal_has_no_space(body_len);
    reveal_strlit("dev-cmux/1");
    reveal_strlit(" ");
    assert(" "@ =~= seq![' ']);
    pieces_of_clean(PROTOCOL@, ' ');
    pieces_of_more(PROTOCOL@, ' ', token);
    pieces_of_more(PROTOCOL@ + seq![' '] + token, ' ', a);
    pieces_of_more(PROTOCOL@ + seq![' '] + token + seq![' '] + a, ' ', b);
    let line = PROTOCOL@ + seq![' '] + token + seq![' '] + a + seq![' '] + b;
    let parts = seq![PROTOCOL@, token, a, b];
    assert(parts.drop_last() =~= seq![PROTOCOL@, token, a]);
    assert(seq![PROTOCOL@, token, a].drop_last() =~= seq![PROTOCOL@, token]);
    assert(seq![PROTOCOL@, token].drop_last() =~= seq![PROTOCOL@]);
    assert(joined(seq![PROTOCOL@], " "@) == PROTOCOL@);
    assert(joined(seq![PROTOCOL@, token], " "@) == PROTOCOL@ + " "@ + token);
    assert(joined(seq![PROTOCOL@, token, a], " "@) == PROTOCOL@ + " "@ + token + " "@ + a);
    assert(header_text(token, argc, body_len) =~= line);
    let fields = pieces(line, ' ');
    assert(fields =~= seq![PROTOCOL@, token, a, b]);
    if argc <= usize::MAX {
        crate::number::decimal_reads_back(argc, usize::MAX as nat);
    } else {
        crate::number::what_is_read_as_a_number(argc, usize::MAX as nat, Seq::empty(), 0);
    }
    if body_len <= usize::MAX {
        crate::number::decimal_reads_back(body_len, usize::MAX as nat);
    } else {
        crate::number::what_is_read_as_a_number(body_len, usize::MAX as nat, Seq::empty(), 0);
    }
}

/// An event's name is a word of the letters from a to z, or such a word, a dash, and an
/// event's name again; it has no more than forty characters in all.
pub proof fn how_events_are_named(word: Seq<char>, rest: Seq<char>)
    requires
        !word.contains('-'),
    ensures
        event_name(word) <==> 0 < word.len() <= 40 && forall|i: int|
            0 <= i < word.len() ==> 'a' <= #[trigger] word[i] <= 'z',
        event_name(word + seq!['-'] + rest) <==> word.len() > 0 && word.len() + 1 + rest.len() <= 40 && (forall|i: int|
            0 <= i < word.len() ==> 'a' <= #[trigger] word[i] <= 'z') && event_name(rest),
{
    crate::text::laws::pieces_from_the_front(word, '-', rest);
    crate::text::pieces_nonempty(rest, '-');
    let all = word + seq!['-'] + rest;
    let p = pieces(all, '-');
    let q = pieces(rest, '-');
    assert(p[0] == word);
    assert forall|i: int| 0 <= i < q.len() implies p[i + 1] == q[i] by {}
    assert(pieces(word, '-')[0] == word);
    assert(lower_word(word) <==> word.len() > 0 && forall|i: int|
        0 <= i < word.len() ==> 'a' <= #[trigger] word[i] <= 'z') by {
        if forall|i: int| 0 <= i < word.len() ==> 'a' <= #[trigger] word[i] <= 'z' {
            assert forall|i: int| 0 <= i < word.len() implies lower(#[trigger] word[i]) by {}
        }
        if lower_word(word) {
            assert forall|i: int| 0 <= i < word.len() implies 'a' <= #[trigger] word[i] <= 'z' by {
                assert(lower(word[i]));
            }
        }
    }
    if event_name(all) {
        assert(lower_word(p[0]));
        assert forall|i: int| 0 <= i < q.len() implies lower_word(#[trigger] q[i]) by {
            assert(lower_word(p[i + 1]));
        }
        if rest.len() == 0 {
            assert(q[0].len() == 0) by {
                assert(q =~= seq![Seq::<char>::empty()]);
            }
            assert(lower_word(q[0]));
        }
    }
    if event_name(rest) && lower_word(word) && word.len() + 1 + rest.len() <= 40 {
        assert forall|i: int| 0 <= i < p.len() implies lower_word(#[trigger] p[i]) by {
            if i > 0 {
                assert(p[i] == q[i - 1]);
                assert(lower_word(q[i - 1]));
            }
        }
    }
}

/// Nothing is run that has one of these words anywhere in it.
pub proof fn the_words_that_write(args: Seq<Seq<char>>, agent: Seq<char>, i: int)
    requires
        0 <= i < args.len(),
        args[i] == "install"@ || args[i] == "uninstall"@ || args[i] == "setup"@ || args[i] == "inject-args"@,
    ensures
        !allowed(args, agent),
        answer_to(args, agent) is Refuse,
{
    assert(write_verb(args[i]));
}

/// Whatever an agent's hooks report under a name that is none of the words that write is
/// run; so is its feed.
pub proof fn hooks_of_the_agent_are_run(agent: Seq<char>, event: Seq<char>)
    requires
        event_name(event),
        agent != "install"@ && agent != "uninstall"@ && agent != "setup"@ && agent != "inject-args"@,
        event != "install"@ && event != "uninstall"@ && event != "setup"@ && event != "inject-args"@,
    ensures
        answer_to(seq!["hooks"@, agent, event], agent) is Forward,
        answer_to(seq!["hooks"@, "feed"@, "--source"@, agent], agent) is Forward,
{
    reveal_strlit("hooks");
    reveal_strlit("feed");
    reveal_strlit("--source");
    reveal_strlit("install");
    reveal_strlit("uninstall");
    reveal_strlit("setup");
    reveal_strlit("inject-args");
    reveal_strlit("ping");
    assert("hooks"@.len() == 5 && "feed"@.len() == 4 && "--source"@.len() == 8);
    assert("install"@.len() == 7 && "uninstall"@.len() == 9 && "setup"@.len() == 5 && "inject-args"@.len() == 11);
    assert("hooks"@[0] == 'h' && "setup"@[0] == 's');
    assert(!write_verb("hooks"@) && !write_verb("feed"@) && !write_verb("--source"@));
    let report = seq!["hooks"@, agent, event];
    assert forall|i: int| 0 <= i < report.len() implies !write_verb(#[trigger] report[i]) by {}
    assert(report.len() == 3 && seq!["ping"@].len() == 1);
    let feed = seq!["hooks"@, "feed"@, "--source"@, agent];
    assert forall|i: int| 0 <= i < feed.len() implies !write_verb(#[trigger] feed[i]) by {}
    assert(feed.len() == 4);
}

/// The container hosts the agent exactly where some line of the probe's output is the
/// agent's name, but for white space around it.
pub proof fn the_probe_names_the_agent(stdout: Seq<char>, agent: Seq<char>)
    ensures
        probed_agents(stdout, agent).len() > 0 <==> exists|i: int|
            0 <= i < lines_of(stdout).len() && trimmed(#[trigger] lines_of(stdout)[i]) == agent,
        forall|i: int| 0 <= i < probed_agents(stdout, agent).len() ==> #[trigger] probed_agents(stdout, agent)[i]
            == agent,
        probed_agents(stdout, agent).len() <= 1,
{
}

/// The wrapper goes under the agent's own name into the shim's directory, and the socket
/// is made at its path.
pub proof fn where_wrapper_and_socket_go(agent: Agent)
    ensures
        wrapper_target(agent) == "/usr/local/share/dev-cmux/bin"@ + "/"@ + agent.name@,
        socket_command().len() == 5,
        socket_command()[0] == "perl"@ && socket_command()[1] == "-e"@ && socket_command()[3] == "--"@,
        socket_command()[4] == "/tmp/dev-cmux.sock"@,
{
}

/// A reply says how many bytes follow, and they do.
pub proof fn replies_say_their_length(bytes: Seq<u8>)
    ensures
        reply_to(Answer::Forward, Some(bytes)) == Some(
            vstd::utf8::encode_utf8("ok "@ + decimal_of(bytes.len()) + "\n"@) + bytes,
        ),
        reply_to(Answer::Forward, None) is None,
        reply_to(Answer::Refuse, Some(bytes)) is None,
        reply_to(Answer::Refuse, None) is None,
{
}

/// The probe looks for the agent itself: it gives up where the shim is not there, and
/// passes over the shim's own directory, where the wrapper has the agent's name.
pub proof fn what_is_probed_for(agent: Seq<char>)
    ensures
        probe_text(agent) == "test -x /usr/local/share/dev-cmux/bin/cmux || exit 1\nfor a in "@ + agent
            + "; do\nIFS=:\nfor d in $PATH; do\n[ \"$d\" = /usr/local/share/dev-cmux/bin ] && continue\nif [ -x \"$d/$a\" ]; then printf '%s\\n' \"$a\"; break; fi\ndone\ndone\nexit 0\n"@,
{
}

} // verus!

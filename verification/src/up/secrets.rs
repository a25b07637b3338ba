//! Secrets and the environment a container is created with.
use vstd::prelude::*;

use crate::assoc::{distinct_names, pair_map, put, put_all};
use crate::json::{members, parse_document, Json};
use crate::model::DevcontainerConfig;
use crate::text::{cat2, cat3, cat5, join, owned, texts};

verus! {

/// A secret value. It has no textual form of its own, so that none is printed
/// by accident.
pub struct SecretValue {
    value: String,
}

impl View for SecretValue {
    type V = Seq<char>;

    closed spec fn view(&self) -> Seq<char> {
        self.value@
    }
}

impl SecretValue {
    /// A secret of this value.
    pub fn new(value: &str) -> (r: Self)
        ensures
            r@ == value@,
    {
        SecretValue { value: owned(value) }
    }

    /// The value itself.
    pub fn expose(&self) -> (r: &str)
        ensures
            r@ == self@,
    {
        self.value.as_str()
    }
}

/// A reference to a secret, under the name it is injected as.
#[derive(Debug, PartialEq, Eq)]
pub struct SecretRef {
    pub key: String,
    /// Injected when the container is created, not only when a command is run.
    pub create_time: bool,
}

/// The references of a workspace, and the file they were found in.
#[derive(Debug, PartialEq, Eq)]
pub struct ValidatedSecrets {
    pub source: Option<String>,
    pub entries: Vec<SecretRef>,
}

impl Default for ValidatedSecrets {
    fn default() -> (r: Self)
        ensures
            r.source is None,
            r.entries@.len() == 0,
    {
        ValidatedSecrets { source: None, entries: Vec::new() }
    }
}

/// The name of a reference that is injected when the container is created.
pub open spec fn create_time_key(r: SecretRef) -> Option<Seq<char>> {
    if r.create_time {
        Some(r.key@)
    } else {
        None
    }
}

/// The names injected when the container is created, in order.
pub open spec fn create_time_keys(secrets: ValidatedSecrets) -> Seq<Seq<char>> {
    crate::model::gathered(secrets.entries@, |r: SecretRef| create_time_key(r))
}

/// A name is one of them exactly when some reference has it and is injected when the
/// container is created; there is one at all exactly when some reference is.
pub proof fn create_time_keys_are_of_references(secrets: ValidatedSecrets, key: Seq<char>)
    ensures
        create_time_keys(secrets).contains(key) <==> exists|i: int|
            0 <= i < secrets.entries@.len() && (#[trigger] secrets.entries@[i]).create_time && secrets.entries@[i].key@
                == key,
        create_time_keys(secrets).len() > 0 <==> exists|i: int|
            0 <= i < secrets.entries@.len() && (#[trigger] secrets.entries@[i]).create_time,
{
    let f = |r: SecretRef| create_time_key(r);
    let all = secrets.entries@;
    crate::model::gathered_holds(all, f, key);
    if create_time_keys(secrets).contains(key) {
        let i = choose|i: int| 0 <= i < all.len() && f(#[trigger] all[i]) == Some(key);
        assert(all[i].create_time);
    }
    if exists|i: int| 0 <= i < all.len() && (#[trigger] all[i]).create_time && all[i].key@ == key {
        let i = choose|i: int| 0 <= i < all.len() && (#[trigger] all[i]).create_time && all[i].key@ == key;
        assert(f(all[i]) == Some(key));
    }
    if create_time_keys(secrets).len() > 0 {
        let first = create_time_keys(secrets)[0];
        crate::model::gathered_holds(all, f, first);
        let i = choose|i: int| 0 <= i < all.len() && f(#[trigger] all[i]) == Some(first);
        assert(all[i].create_time);
    }
    if exists|i: int| 0 <= i < all.len() && (#[trigger] all[i]).create_time {
        let i = choose|i: int| 0 <= i < all.len() && (#[trigger] all[i]).create_time;
        crate::model::gathered_holds(all, f, all[i].key@);
        assert(f(all[i]) == Some(all[i].key@));
    }
}

/// The names injected when the container is created, in order. With none,
/// no provider has to be asked for anything.
pub fn create_time_entries(secrets: &ValidatedSecrets) -> (r: Vec<String>)
    ensures
        texts(r@) == create_time_keys(*secrets),
{
    let ghost f = |r: SecretRef| create_time_key(r);
    let mut out: Vec<String> = Vec::new();
    let mut i: usize = 0;
    assert(texts(out@) == crate::model::gathered(secrets.entries@.take(0), f));
    while i < secrets.entries.len()
        invariant
            f == (|r: SecretRef| create_time_key(r)),
            i <= secrets.entries@.len(),
            texts(out@) == crate::model::gathered(secrets.entries@.take(i as int), f),
        decreases secrets.entries@.len() - i,
    {
        proof {
            crate::model::gathered_step(secrets.entries@, f, i as int);
        }
        let ghost before = texts(out@);
        if secrets.entries[i].create_time {
            out.push(secrets.entries[i].key.clone());
            assert(texts(out@) == before.push(secrets.entries@[i as int].key@));
        }
        i = i + 1;
    }
    assert(secrets.entries@.take(secrets.entries@.len() as int) == secrets.entries@);
    out
}

// ---------------------------------------------------------------------------
// What Compose projects cannot have
// ---------------------------------------------------------------------------

/// Refuse `--secrets-file` for a Compose project: its environment is written to
/// disk, where no secret value may go.
pub fn reject_secrets_file_for_compose(secrets_file: &Option<String>) -> (r: Result<(), String>)
    ensures
        r is Err <==> secrets_file is Some,
        r matches Err(e) ==> e@
            == "`--secrets-file` is not supported for Docker Compose devcontainers in `dev`; Compose environment is written to a generated override file on disk, and `dev` never writes a secret value to disk. Remove `--secrets-file "@
            + secrets_file->Some_0@
            + "` and put the equivalent values on the configured Compose service definition (`environment:` or `env_file:`)."@,
{
    match secrets_file {
        Some(path) => Err(
            cat3(
                "`--secrets-file` is not supported for Docker Compose devcontainers in `dev`; Compose environment is written to a generated override file on disk, and `dev` never writes a secret value to disk. Remove `--secrets-file ",
                path.as_str(),
                "` and put the equivalent values on the configured Compose service definition (`environment:` or `env_file:`).",
            ),
        ),
        None => Ok(()),
    }
}

/// Refuse `--secrets` for a Compose project: nothing on that path injects
/// secrets when the container is created.
pub fn reject_secrets_override_for_compose(secrets_override: &Option<String>) -> (r: Result<(), String>)
    ensures
        r is Err <==> secrets_override is Some,
        r matches Err(e) ==> e@
            == "`--secrets` is not supported for Docker Compose devcontainers in `dev`; `dev up` injects create-time secrets when it creates the container, and the Compose path creates containers through `docker compose up` instead. Remove `--secrets "@
            + secrets_override->Some_0@
            + "`; exec-time secrets come from the `secrets.json` beside the config, which `dev exec` and `dev shell` read on every invocation."@,
{
    match secrets_override {
        Some(path) => Err(
            cat3(
                "`--secrets` is not supported for Docker Compose devcontainers in `dev`; `dev up` injects create-time secrets when it creates the container, and the Compose path creates containers through `docker compose up` instead. Remove `--secrets ",
                path.as_str(),
                "`; exec-time secrets come from the `secrets.json` beside the config, which `dev exec` and `dev shell` read on every invocation.",
            ),
        ),
        None => Ok(()),
    }
}

/// The references of a Compose project hold some that are injected when the
/// container is created.
pub open spec fn create_time_on_compose(config: DevcontainerConfig, secrets: ValidatedSecrets) -> bool {
    config.compose() && secrets.source is Some && create_time_keys(secrets).len() > 0
}

/// Refuse, for a Compose project, references that are injected when the
/// container is created, naming the file and each of them. References that only
/// commands get are let through, and so is every other kind of project.
pub fn reject_secrets_for_compose(config: &DevcontainerConfig, secrets: &ValidatedSecrets) -> (r: Result<
    (),
    String,
>)
    ensures
        r is Err <==> create_time_on_compose(*config, *secrets),
        r matches Err(e) ==> e@
            == "create-time secrets are not supported for Docker Compose devcontainers in `dev`; they are injected as container environment when `dev` creates the container, and the Compose path creates containers through `docker compose up` instead. In "@
            + secrets.source->Some_0@ + ", either add `\"createTime\": false` to "@ + crate::text::joined(
            create_time_keys(*secrets),
            ", "@,
        )
            + " so the value is injected on `dev exec` and `dev shell` instead, or put the equivalent values on the configured Compose service definition (`environment:` or `env_file:`)."@,
{
    if !config.is_compose() {
        return Ok(());
    }
    match &secrets.source {
        None => Ok(()),
        Some(path) => {
            let create_time = create_time_entries(secrets);
            assert(texts(create_time@).len() == create_time@.len());
            if create_time.len() == 0 {
                return Ok(());
            }
            let list = join(&create_time, ", ");
            Err(
                cat5(
                    "create-time secrets are not supported for Docker Compose devcontainers in `dev`; they are injected as container environment when `dev` creates the container, and the Compose path creates containers through `docker compose up` instead. In ",
                    path.as_str(),
                    ", either add `\"createTime\": false` to ",
                    list.as_str(),
                    " so the value is injected on `dev exec` and `dev shell` instead, or put the equivalent values on the configured Compose service definition (`environment:` or `env_file:`).",
                ),
            )
        },
    }
}

// ---------------------------------------------------------------------------
// `--secrets-file`
// ---------------------------------------------------------------------------

/// `std::str::from_utf8` reads bytes as text when they are well-formed UTF-8.
#[verifier::external_body]
fn utf8_text(bytes: &Vec<u8>) -> (r: Option<String>)
    ensures
        match r {
            Some(s) => vstd::utf8::valid_utf8(bytes@) && vstd::utf8::encode_utf8(s@) == bytes@,
            None => !vstd::utf8::valid_utf8(bytes@),
        },
{
    std::str::from_utf8(bytes).ok().map(String::from)
}

/// The start of every message about the file: the flag and the path.
pub open spec fn flag_and_path(path: Seq<char>) -> Seq<char> {
    "`--secrets-file` `"@ + path + "`"@
}

/// What is said when the file cannot be read.
pub fn unreadable_secrets_file(path: &str, error: &str) -> (r: String)
    ensures
        r@ == "failed to read `--secrets-file` `"@ + path@ + "`: "@ + error@,
{
    crate::text::cat4("failed to read `--secrets-file` `", path, "`: ", error)
}

/// What the file's bytes amount to: the members of the document's top level, or
/// why there are none.
pub open spec fn secrets_members(path: Seq<char>, bytes: Seq<u8>) -> Result<Seq<(Seq<char>, Json)>, Seq<char>> {
    if !vstd::utf8::valid_utf8(bytes) {
        Err(flag_and_path(path) + " is not valid UTF-8"@)
    } else {
        object_members(path, vstd::utf8::decode_utf8(bytes))
    }
}

/// The members of the document's top level, which must be an object.
pub open spec fn object_members(path: Seq<char>, body: Seq<char>) -> Result<Seq<(Seq<char>, Json)>, Seq<char>> {
    match crate::json::json_document(body) {
        Err(e) => Err(flag_and_path(path) + " is not valid JSON: "@ + e),
        Ok(Json::Object(members)) => Ok(members),
        Ok(_) => Err(
            flag_and_path(path)
                + " must be a JSON object mapping environment variable names to string values"@,
        ),
    }
}

/// The text of a member's value, if it is a string.
pub open spec fn member_text(value: Json) -> Option<Seq<char>> {
    match value {
        Json::Text(s) => Some(s),
        _ => None,
    }
}

/// A member of the file: its name, and its text if it is a string.
pub struct SecretsFileMember {
    pub key: String,
    pub text: Option<SecretValue>,
}

/// The member stands for this name and value.
pub open spec fn stands_for(m: SecretsFileMember, member: (Seq<char>, Json)) -> bool {
    &&& m.key@ == member.0
    &&& match member_text(member.1) {
        Some(s) => m.text is Some && m.text->Some_0@ == s,
        None => m.text is None,
    }
}

/// The members of the document at the top of the file, in order. The top level
/// must be an object; nothing of its contents reaches a message.
pub fn secrets_file_object(path: &str, body: &str) -> (r: Result<Vec<SecretsFileMember>, String>)
    ensures
        match object_members(path@, body@) {
            Ok(members) => {
                &&& r is Ok
                &&& r->Ok_0@.len() == members.len()
                &&& forall|i: int| 0 <= i < members.len() ==> stands_for(r->Ok_0@[i], #[trigger] members[i])
                &&& crate::assoc::distinct(members)
            },
            Err(e) => r is Err && r->Err_0@ == e,
        },
{
    let start = cat3("`--secrets-file` `", path, "`");
    let value = match parse_document(body) {
        Ok(value) => value,
        Err(e) => {
            return Err(cat3(start.as_str(), " is not valid JSON: ", e.as_str()));
        },
    };
    match members(&value) {
        None => Err(
            cat2(
                start.as_str(),
                " must be a JSON object mapping environment variable names to string values",
            ),
        ),
        Some(found) => {
            let ghost all = crate::json::json_of(value)->Object_0;
            let mut out: Vec<SecretsFileMember> = Vec::new();
            let mut i: usize = 0;
            while i < found.len()
                invariant
                    all.len() == found@.len(),
                    all == found@.map_values(
                        |p: (String, &serde_json::Value)| (p.0@, crate::json::json_of(*p.1)),
                    ),
                    i <= found@.len(),
                    out@.len() == i,
                    forall|j: int| 0 <= j < i ==> stands_for(out@[j], #[trigger] all[j]),
                decreases found@.len() - i,
            {
                assert(all[i as int] == (found@[i as int].0@, crate::json::json_of(*found@[i as int].1)));
                let text = match found[i].1.as_str() {
                    Some(s) => Some(SecretValue::new(s)),
                    None => None,
                };
                out.push(SecretsFileMember { key: found[i].0.clone(), text });
                i = i + 1;
            }
            Ok(out)
        },
    }
}

/// The members of the file, from its bytes.
pub fn read_secrets_file(path: &str, bytes: &Vec<u8>) -> (r: Result<Vec<SecretsFileMember>, String>)
    ensures
        match secrets_members(path@, bytes@) {
            Ok(members) => {
                &&& r is Ok
                &&& r->Ok_0@.len() == members.len()
                &&& forall|i: int| 0 <= i < members.len() ==> stands_for(r->Ok_0@[i], #[trigger] members[i])
                &&& crate::assoc::distinct(members)
            },
            Err(e) => r is Err && r->Err_0@ == e,
        },
{
    match utf8_text(bytes) {
        None => {
            let start = cat3("`--secrets-file` `", path, "`");
            Err(cat2(start.as_str(), " is not valid UTF-8"))
        },
        Some(body) => {
            proof {
                vstd::utf8::encode_utf8_decode_utf8(body@);
            }
            secrets_file_object(path, body.as_str())
        },
    }
}

/// One entry of the file: refused for its name, refused for its value, or let
/// through.
pub open spec fn entry_refusal(path: Seq<char>, key: Seq<char>, problem: Option<Seq<char>>, text: Option<Seq<char>>) -> Option<
    Seq<char>,
> {
    match problem {
        Some(reason) => Some(
            flag_and_path(path) + ": `"@ + key + "` is not a valid environment variable name: "@ + reason,
        ),
        None => match text {
            None => Some(
                flag_and_path(path) + ": the value for `"@ + key
                    + "` is not a string. This flag takes literal values; a `secrets.json` references document goes to `--secrets`"@,
            ),
            Some(_) => None,
        },
    }
}

/// The text of an optional secret.
pub open spec fn secret_opt(s: Option<SecretValue>) -> Option<Seq<char>> {
    match s {
        Some(v) => Some(v@),
        None => None,
    }
}

/// Why a member of the file is refused, if it is: its name has a problem, or
/// its value is no string. The value does not reach the message.
pub fn secrets_file_entry(path: &str, member: &SecretsFileMember, problem: &Option<String>) -> (r: Option<
    String,
>)
    ensures
        crate::text::text_opt(r) == entry_refusal(
            path@,
            member.key@,
            crate::text::text_opt(*problem),
            secret_opt(member.text),
        ),
{
    let start = cat3("`--secrets-file` `", path, "`");
    match problem {
        Some(reason) => Some(
            cat5(
                start.as_str(),
                ": `",
                member.key.as_str(),
                "` is not a valid environment variable name: ",
                reason.as_str(),
            ),
        ),
        None => match &member.text {
            None => Some(
                crate::text::cat4(
                    start.as_str(),
                    ": the value for `",
                    member.key.as_str(),
                    "` is not a string. This flag takes literal values; a `secrets.json` references document goes to `--secrets`",
                ),
            ),
            Some(_) => None,
        },
    }
}

/// The refusal of the `i`-th member.
pub open spec fn refusal_at(
    path: Seq<char>,
    members: Seq<SecretsFileMember>,
    problems: Seq<Option<String>>,
    i: int,
) -> Option<Seq<char>> {
    entry_refusal(
        path,
        members[i].key@,
        crate::text::text_opt(problems[i]),
        secret_opt(members[i].text),
    )
}

/// The entries of the file, given what is wrong with the name of each: all of
/// them, or the refusal of the first that has one.
pub fn secrets_file_entries(
    path: &str,
    members: &Vec<SecretsFileMember>,
    problems: &Vec<Option<String>>,
) -> (r: Result<Vec<(String, SecretValue)>, String>)
    requires
        members@.len() == problems@.len(),
    ensures
        match r {
            Ok(entries) => {
                &&& entries@.len() == members@.len()
                &&& forall|i: int|
                    0 <= i < members@.len() ==> #[trigger] refusal_at(path@, members@, problems@, i) is None
                &&& forall|i: int|
                    0 <= i < members@.len() ==> {
                        &&& (#[trigger] entries@[i]).0@ == members@[i].key@
                        &&& secret_opt(members@[i].text) == Some(entries@[i].1@)
                    }
            },
            Err(e) => exists|i: int|
                {
                    &&& 0 <= i < members@.len()
                    &&& #[trigger] refusal_at(path@, members@, problems@, i) == Some(e@)
                    &&& forall|j: int|
                        0 <= j < i ==> #[trigger] refusal_at(path@, members@, problems@, j) is None
                },
        },
{
    let mut out: Vec<(String, SecretValue)> = Vec::new();
    let mut i: usize = 0;
    while i < members.len()
        invariant
            members@.len() == problems@.len(),
            i <= members@.len(),
            out@.len() == i,
            forall|j: int| 0 <= j < i ==> #[trigger] refusal_at(path@, members@, problems@, j) is None,
            forall|j: int|
                0 <= j < i ==> {
                    &&& (#[trigger] out@[j]).0@ == members@[j].key@
                    &&& secret_opt(members@[j].text) == Some(out@[j].1@)
                },
        decreases members@.len() - i,
    {
        match secrets_file_entry(path, &members[i], &problems[i]) {
            Some(e) => {
                assert(refusal_at(path@, members@, problems@, i as int) == Some(e@));
                return Err(e);
            },
            None => {
                assert(refusal_at(path@, members@, problems@, i as int) is None);
            },
        }
        match &members[i].text {
            Some(text) => {
                out.push((members[i].key.clone(), SecretValue::new(text.expose())));
            },
            None => {
                assert(false);
            },
        }
        i = i + 1;
    }
    Ok(out)
}

// ---------------------------------------------------------------------------
// The environment
// ---------------------------------------------------------------------------

/// The texts of a list of named secrets.
pub open spec fn secret_texts(s: Seq<(String, SecretValue)>) -> Seq<(Seq<char>, Seq<char>)> {
    s.map_values(|p: (String, SecretValue)| (p.0@, p.1@))
}

/// The map that a list of named secrets stands for.
pub open spec fn secret_map(s: Seq<(String, SecretValue)>) -> Map<Seq<char>, Seq<char>> {
    crate::assoc::assoc(secret_texts(s))
}

/// Write secrets into an environment, over the values their names had.
pub fn apply_secrets_to_env(env: &mut Vec<(String, String)>, secrets: &Vec<(String, SecretValue)>)
    requires
        distinct_names(old(env)@),
    ensures
        distinct_names(final(env)@),
        pair_map(final(env)@) == pair_map(old(env)@).union_prefer_right(secret_map(secrets@)),
{
    let ghost before = pair_map(env@);
    let ghost all = secret_texts(secrets@);
    let mut i: usize = 0;
    proof {
        assert(all.take(0).len() == 0);
        assert(before.union_prefer_right(crate::assoc::assoc(all.take(0))) =~= before);
    }
    while i < secrets.len()
        invariant
            all == secret_texts(secrets@),
            i <= secrets@.len(),
            distinct_names(env@),
            pair_map(env@) == before.union_prefer_right(crate::assoc::assoc(all.take(i as int))),
        decreases secrets@.len() - i,
    {
        let name = secrets[i].0.clone();
        let value = owned(secrets[i].1.expose());
        proof {
            let now = all.take(i + 1);
            assert(now.drop_last() == all.take(i as int));
            assert(now.last() == (name@, value@));
            assert(before.union_prefer_right(crate::assoc::assoc(now)) =~= before.union_prefer_right(
                crate::assoc::assoc(now.drop_last()),
            ).insert(name@, value@));
        }
        put(env, name, value);
        i = i + 1;
    }
    assert(all.take(all.len() as int) == all);
}

/// The environment every container is created with.
pub open spec fn base_env() -> Map<Seq<char>, Seq<char>> {
    map!["REMOTE_CONTAINERS"@ => "true"@]
}

/// The environment that a container has before secrets and `runArgs`.
pub open spec fn config_env(
    container_env: Map<Seq<char>, Seq<char>>,
    remote_env: Map<Seq<char>, Seq<char>>,
) -> Map<Seq<char>, Seq<char>> {
    base_env().union_prefer_right(container_env).union_prefer_right(remote_env)
}

/// The environment that a container is created with: each tier over the ones
/// before it.
pub open spec fn create_env(
    container_env: Map<Seq<char>, Seq<char>>,
    remote_env: Map<Seq<char>, Seq<char>>,
    secrets_file: Map<Seq<char>, Seq<char>>,
    run_args: Map<Seq<char>, Seq<char>>,
    resolved: Map<Seq<char>, Seq<char>>,
) -> Map<Seq<char>, Seq<char>> {
    config_env(container_env, remote_env).union_prefer_right(secrets_file).union_prefer_right(
        run_args,
    ).union_prefer_right(resolved)
}

/// The environment of a project's configuration: `containerEnv`, then
/// `remoteEnv` over it.
pub fn configured_env(container_env: &Vec<(String, String)>, remote_env: &Vec<(String, String)>) -> (r: Vec<
    (String, String),
>)
    ensures
        distinct_names(r@),
        pair_map(r@) == config_env(pair_map(container_env@), pair_map(remote_env@)),
{
    let mut env: Vec<(String, String)> = Vec::new();
    put(&mut env, owned("REMOTE_CONTAINERS"), owned("true"));
    assert(pair_map(env@) =~= base_env());
    put_all(&mut env, container_env);
    put_all(&mut env, remote_env);
    env
}

/// The environment that a container is created with: `containerEnv`, then
/// `remoteEnv`, then `--secrets-file`, then the environment of `runArgs`, then
/// the resolved secrets, each over the ones before it.
pub fn created_env(
    container_env: &Vec<(String, String)>,
    remote_env: &Vec<(String, String)>,
    secrets_file: &Vec<(String, SecretValue)>,
    run_args: &Vec<(String, String)>,
    resolved: &Vec<(String, SecretValue)>,
) -> (r: Vec<(String, String)>)
    ensures
        distinct_names(r@),
        pair_map(r@) == create_env(
            pair_map(container_env@),
            pair_map(remote_env@),
            secret_map(secrets_file@),
            pair_map(run_args@),
            secret_map(resolved@),
        ),
{
    let mut env = configured_env(container_env, remote_env);
    apply_secrets_to_env(&mut env, secrets_file);
    put_all(&mut env, run_args);
    apply_secrets_to_env(&mut env, resolved);
    env
}

/// A resolved secret is what the container gets under its name, whatever every
/// other tier says.
pub proof fn resolved_secret_outranks_every_tier(
    container_env: Map<Seq<char>, Seq<char>>,
    remote_env: Map<Seq<char>, Seq<char>>,
    secrets_file: Map<Seq<char>, Seq<char>>,
    run_args: Map<Seq<char>, Seq<char>>,
    resolved: Map<Seq<char>, Seq<char>>,
    name: Seq<char>,
)
    requires
        resolved.contains_key(name),
    ensures
        create_env(container_env, remote_env, secrets_file, run_args, resolved).contains_key(name),
        create_env(container_env, remote_env, secrets_file, run_args, resolved)[name] == resolved[name],
{
}

/// A `runArgs` variable outranks every tier but a resolved secret; a
/// `--secrets-file` entry outranks `remoteEnv`, and that `containerEnv`.
pub proof fn env_tiers_outrank_in_order(
    container_env: Map<Seq<char>, Seq<char>>,
    remote_env: Map<Seq<char>, Seq<char>>,
    secrets_file: Map<Seq<char>, Seq<char>>,
    run_args: Map<Seq<char>, Seq<char>>,
    resolved: Map<Seq<char>, Seq<char>>,
    name: Seq<char>,
)
    requires
        !resolved.contains_key(name),
    ensures
        ({
            let env = create_env(container_env, remote_env, secrets_file, run_args, resolved);
            if run_args.contains_key(name) {
                env.contains_key(name) && env[name] == run_args[name]
            } else if secrets_file.contains_key(name) {
                env.contains_key(name) && env[name] == secrets_file[name]
            } else if remote_env.contains_key(name) {
                env.contains_key(name) && env[name] == remote_env[name]
            } else if container_env.contains_key(name) {
                env.contains_key(name) && env[name] == container_env[name]
            } else {
                env.contains_key(name) <==> name == "REMOTE_CONTAINERS"@
            }
        }),
{
}

/// Every container is told that it is one, unless some tier says otherwise.
pub proof fn containers_are_told_what_they_are(
    container_env: Map<Seq<char>, Seq<char>>,
    remote_env: Map<Seq<char>, Seq<char>>,
    secrets_file: Map<Seq<char>, Seq<char>>,
    run_args: Map<Seq<char>, Seq<char>>,
    resolved: Map<Seq<char>, Seq<char>>,
)
    requires
        !container_env.contains_key("REMOTE_CONTAINERS"@),
        !remote_env.contains_key("REMOTE_CONTAINERS"@),
        !secrets_file.contains_key("REMOTE_CONTAINERS"@),
        !run_args.contains_key("REMOTE_CONTAINERS"@),
        !resolved.contains_key("REMOTE_CONTAINERS"@),
    ensures
        create_env(container_env, remote_env, secrets_file, run_args, resolved).contains_key("REMOTE_CONTAINERS"@),
        create_env(container_env, remote_env, secrets_file, run_args, resolved)["REMOTE_CONTAINERS"@] == "true"@,
{
}

/// A file of secrets is read exactly where its bytes are text, the text is JSON, and the
/// JSON is an object; each other file is refused for the first of these that fails, and the
/// message names the flag and the file.
pub proof fn which_files_are_read(path: Seq<char>, bytes: Seq<u8>)
    ensures
        ({
            let document = crate::json::json_document(vstd::utf8::decode_utf8(bytes));
            let named = "`--secrets-file` `"@ + path + "`"@;
            let text = vstd::utf8::valid_utf8(bytes);
            &&& secrets_members(path, bytes) is Ok <==> text && document is Ok && document->Ok_0 is Object
            &&& secrets_members(path, bytes) matches Ok(members) ==> document->Ok_0 == Json::Object(members)
            &&& !text ==> secrets_members(path, bytes)->Err_0 == named + " is not valid UTF-8"@
            &&& text && document is Err ==> secrets_members(path, bytes)->Err_0 == named + " is not valid JSON: "@
                + document->Err_0
            &&& text && document is Ok && !(document->Ok_0 is Object) ==> secrets_members(path, bytes)->Err_0 == named
                + " must be a JSON object mapping environment variable names to string values"@
        }),
{
}

/// An entry is let through exactly where nothing is wrong with its name and its value is a
/// string; a name that has a problem is what is complained of first. What is said does not
/// depend on the value.
pub proof fn which_entries_are_let_through(
    path: Seq<char>,
    key: Seq<char>,
    problem: Option<Seq<char>>,
    value: Json,
    other: Json,
)
    ensures
        entry_refusal(path, key, problem, member_text(value)) is None <==> problem is None && value is Text,
        problem matches Some(reason) ==> entry_refusal(path, key, problem, member_text(value)) == Some(
            "`--secrets-file` `"@ + path + "`"@ + ": `"@ + key + "` is not a valid environment variable name: "@ + reason,
        ),
        value is Text ==> member_text(value) == Some(value->Text_0),
        problem is Some || !(value is Text) && !(other is Text) ==> entry_refusal(
            path,
            key,
            problem,
            member_text(value),
        ) == entry_refusal(path, key, problem, member_text(other)),
{
}

/// An entry of a secrets file has its member's name, and a value exactly where the member
/// is a string: that string.
pub proof fn entries_have_their_members_strings(m: SecretsFileMember, key: Seq<char>, value: Json, s: Seq<char>)
    requires
        stands_for(m, (key, value)),
    ensures
        m.key@ == key,
        m.text is Some <==> value is Text,
        value == Json::Text(s) ==> m.text is Some && m.text->Some_0@ == s,
{
}

/// An entry is refused exactly where its name cannot be used or its value is no string,
/// and the refusal names the entry.
pub proof fn which_entry_is_refused(
    path: Seq<char>,
    members: Seq<SecretsFileMember>,
    problems: Seq<Option<String>>,
    i: int,
)
    ensures
        refusal_at(path, members, problems, i) is None <==> problems[i] is None && members[i].text is Some,
        refusal_at(path, members, problems, i) == (match problems[i] {
            Some(reason) => entry_refusal(path, members[i].key@, Some(reason@), None),
            None => if members[i].text is Some {
                None
            } else {
                entry_refusal(path, members[i].key@, None, None)
            },
        }),
{
}

/// A secret has the last value that it is given, and what is given no value has none.
pub proof fn the_last_value_of_a_secret_counts(s: Seq<(String, SecretValue)>, i: int, name: Seq<char>)
    ensures
        0 <= i < s.len() && (forall|j: int| i < j < s.len() ==> #[trigger] s[j].0@ != s[i].0@)
            ==> secret_map(s).contains_key(s[i].0@) && secret_map(s)[s[i].0@] == s[i].1@,
        (forall|j: int| 0 <= j < s.len() ==> #[trigger] s[j].0@ != name) ==> !secret_map(s).contains_key(name),
{
    let t = secret_texts(s);
    if 0 <= i < s.len() && (forall|j: int| i < j < s.len() ==> #[trigger] s[j].0@ != s[i].0@) {
        assert forall|j: int| i < j < t.len() implies #[trigger] t[j].0 != t[i].0 by {
            assert(s[j].0@ != s[i].0@);
        }
        crate::assoc::assoc_last(t, i);
    }
    if forall|j: int| 0 <= j < s.len() ==> #[trigger] s[j].0@ != name {
        crate::assoc::assoc_keys(t);
        if secret_map(s).contains_key(name) {
            let j = choose|j: int| 0 <= j < t.len() && #[trigger] t[j].0 == name;
            assert(s[j].0@ == name);
        }
    }
}

/// A Compose project is refused exactly where some reference is to be injected when the
/// container is created.
pub proof fn compose_takes_no_create_time_secret(config: DevcontainerConfig, secrets: ValidatedSecrets)
    ensures
        create_time_on_compose(config, secrets) ==> config.compose() && secrets.source is Some && exists|i: int|
            0 <= i < secrets.entries@.len() && (#[trigger] secrets.entries@[i]).create_time,
        config.compose() && secrets.source is Some && (exists|i: int|
            0 <= i < secrets.entries@.len() && (#[trigger] secrets.entries@[i]).create_time)
            ==> create_time_on_compose(config, secrets),
{
    let keys = create_time_keys(secrets);
    if create_time_on_compose(config, secrets) {
        create_time_keys_are_of_references(secrets, keys[0]);
        assert(keys.contains(keys[0]));
    }
    if exists|i: int| 0 <= i < secrets.entries@.len() && (#[trigger] secrets.entries@[i]).create_time {
        let i = choose|i: int| 0 <= i < secrets.entries@.len() && (#[trigger] secrets.entries@[i]).create_time;
        create_time_keys_are_of_references(secrets, secrets.entries@[i].key@);
        assert(keys.contains(secrets.entries@[i].key@));
    }
}

} // verus!

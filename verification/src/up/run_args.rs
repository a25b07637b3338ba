//! `runArgs`: what the container is created with beyond its configuration.
use vstd::prelude::*;

use crate::model::DevcontainerConfig;
use crate::text::{cat3, holds_text, join, owned, same, texts};

verus! {

/// The `runArgs` of a project, translated.
#[derive(Debug, PartialEq, Eq)]
pub struct ResolvedRunArgs {
    pub env: Vec<(String, String)>,
    pub cap_add: Vec<String>,
    pub security_opt: Vec<String>,
    pub userns_mode: Option<String>,
    pub privileged: bool,
    pub init: bool,
}

/// What the features of a container, and then its `runArgs`, add to it.
#[derive(Debug, PartialEq, Eq)]
pub struct MergedCapabilities {
    pub init: bool,
    pub privileged: bool,
    pub cap_add: Vec<String>,
    pub security_opt: Vec<String>,
}

/// A Compose project whose own document declares `runArgs`, where some are in
/// effect.
pub open spec fn run_args_on_compose(config: DevcontainerConfig, project_declared: bool) -> bool {
    config.compose() && project_declared && config.run_args is Some && config.run_args->Some_0@.len() > 0
}

/// Refuse `runArgs` that a Compose project declares itself. Those it inherits
/// are let through, and so is an empty list.
pub fn reject_project_run_args_for_compose(
    config: &DevcontainerConfig,
    project_declared_run_args: bool,
) -> (r: Result<(), String>)
    ensures
        r is Err <==> run_args_on_compose(*config, project_declared_run_args),
        r matches Err(e) ==> e@
            == "`runArgs` is not supported for Docker Compose devcontainers in `dev`; Compose has no global container-create argument channel. Put equivalent options on the configured Compose service definition instead."@,
{
    let has_effective_run_args = match &config.run_args {
        Some(args) => args.len() > 0,
        None => false,
    };
    if config.is_compose() && project_declared_run_args && has_effective_run_args {
        return Err(
            owned(
                "`runArgs` is not supported for Docker Compose devcontainers in `dev`; Compose has no global container-create argument channel. Put equivalent options on the configured Compose service definition instead.",
            ),
        );
    }
    Ok(())
}

/// The flags in a project's `runArgs` that set more than its environment.
pub open spec fn flags_beyond_env(resolved: ResolvedRunArgs) -> Seq<Seq<char>> {
    let none = Seq::<Seq<char>>::empty();
    let a = if resolved.cap_add@.len() > 0 {
        none.push("--cap-add"@)
    } else {
        none
    };
    let b = if resolved.security_opt@.len() > 0 {
        a.push("--security-opt"@)
    } else {
        a
    };
    let c = if resolved.userns_mode is Some {
        b.push("--userns"@)
    } else {
        b
    };
    let d = if resolved.privileged {
        c.push("--privileged"@)
    } else {
        c
    };
    if resolved.init {
        d.push("--init"@)
    } else {
        d
    }
}

/// Add a text to a list of texts.
fn note(out: &mut Vec<String>, s: &str)
    ensures
        texts(final(out)@) == texts(old(out)@).push(s@),
{
    let ghost before = texts(out@);
    out.push(owned(s));
    assert(texts(out@) == before.push(s@));
}

/// Refuse, for the Apple runtime, `runArgs` that set more than the environment,
/// naming every such flag. Every other runtime takes them all.
pub fn reject_run_args_unsupported_by_runtime(runtime_name: &str, resolved: &ResolvedRunArgs) -> (r: Result<
    (),
    String,
>)
    ensures
        r is Err <==> runtime_name@ == "apple"@ && flags_beyond_env(*resolved).len() > 0,
        r matches Err(e) ==> e@ == "`runArgs` flag(s) "@ + crate::text::joined(
            flags_beyond_env(*resolved),
            ", "@,
        )
            + " are not supported when the selected runtime is Apple Containers; Apple currently supports only the environment `runArgs` subset (`--env-file`, `--env`, and `-e`). Remove these flags or use runtime-supported devcontainer settings."@,
{
    if !same(runtime_name, "apple") {
        return Ok(());
    }
    let mut unsupported: Vec<String> = Vec::new();
    assert(texts(unsupported@) == Seq::<Seq<char>>::empty());
    if resolved.cap_add.len() > 0 {
        note(&mut unsupported, "--cap-add");
    }
    if resolved.security_opt.len() > 0 {
        note(&mut unsupported, "--security-opt");
    }
    if resolved.userns_mode.is_some() {
        note(&mut unsupported, "--userns");
    }
    if resolved.privileged {
        note(&mut unsupported, "--privileged");
    }
    if resolved.init {
        note(&mut unsupported, "--init");
    }
    assert(texts(unsupported@) == flags_beyond_env(*resolved));
    assert(texts(unsupported@).len() == unsupported@.len());
    if unsupported.len() > 0 {
        let list = join(&unsupported, ", ");
        return Err(
            cat3(
                "`runArgs` flag(s) ",
                list.as_str(),
                " are not supported when the selected runtime is Apple Containers; Apple currently supports only the environment `runArgs` subset (`--env-file`, `--env`, and `-e`). Remove these flags or use runtime-supported devcontainer settings.",
            ),
        );
    }
    Ok(())
}

/// A list with the additions it does not have yet, in order.
pub open spec fn extended(out: Seq<Seq<char>>, additions: Seq<Seq<char>>) -> Seq<Seq<char>>
    decreases additions.len(),
{
    if additions.len() == 0 {
        out
    } else {
        let before = extended(out, additions.drop_last());
        if before.contains(additions.last()) {
            before
        } else {
            before.push(additions.last())
        }
    }
}

/// Add to a list what it does not have yet.
pub fn extend_unique(out: &mut Vec<String>, additions: &Vec<String>)
    ensures
        texts(final(out)@) == extended(texts(old(out)@), texts(additions@)),
{
    let ghost before = texts(out@);
    let ghost all = texts(additions@);
    let mut i: usize = 0;
    assert(extended(before, all.take(0)) == before);
    while i < additions.len()
        invariant
            all == texts(additions@),
            i <= additions@.len(),
            texts(out@) == extended(before, all.take(i as int)),
        decreases additions@.len() - i,
    {
        proof {
            assert(all.take(i + 1).drop_last() == all.take(i as int));
            assert(all.take(i + 1).last() == additions@[i as int]@);
        }
        if !holds_text(out, additions[i].as_str()) {
            note(out, additions[i].as_str());
        }
        i = i + 1;
    }
    assert(all.take(all.len() as int) == all);
}

/// Let `runArgs` add to what the features contribute.
pub fn apply_run_args_capabilities(caps: &mut MergedCapabilities, resolved: &ResolvedRunArgs)
    ensures
        final(caps).init == (old(caps).init || resolved.init),
        final(caps).privileged == (old(caps).privileged || resolved.privileged),
        texts(final(caps).cap_add@) == extended(texts(old(caps).cap_add@), texts(resolved.cap_add@)),
        texts(final(caps).security_opt@) == extended(
            texts(old(caps).security_opt@),
            texts(resolved.security_opt@),
        ),
{
    caps.init = caps.init || resolved.init;
    caps.privileged = caps.privileged || resolved.privileged;
    extend_unique(&mut caps.cap_add, &resolved.cap_add);
    extend_unique(&mut caps.security_opt, &resolved.security_opt);
}

/// Extending a list keeps what it had, in its place; leaves it holding every
/// addition and nothing else; and repeats nothing that it did not repeat.
pub proof fn extended_is_union(out: Seq<Seq<char>>, additions: Seq<Seq<char>>)
    ensures
        out.is_prefix_of(extended(out, additions)),
        forall|s: Seq<char>|
            #[trigger] extended(out, additions).contains(s) <==> out.contains(s) || additions.contains(s),
        out.no_duplicates() ==> extended(out, additions).no_duplicates(),
    decreases additions.len(),
{
    if additions.len() > 0 {
        let rest = additions.drop_last();
        let last = additions.last();
        extended_is_union(out, rest);
        let before = extended(out, rest);
        let after = extended(out, additions);
        assert forall|s: Seq<char>| #[trigger] after.contains(s) <==> out.contains(s) || additions.contains(s) by {
            if after.contains(s) {
                if !before.contains(s) {
                    assert(s == last);
                    assert(additions[additions.len() - 1] == s);
                } else if rest.contains(s) {
                    let i = choose|i: int| 0 <= i < rest.len() && rest[i] == s;
                    assert(additions[i] == s);
                }
            }
            if before.contains(s) {
                let i = choose|i: int| 0 <= i < before.len() && before[i] == s;
                assert(after[i] == s);
            }
            if additions.contains(s) && !before.contains(s) {
                let i = choose|i: int| 0 <= i < additions.len() && additions[i] == s;
                if i < rest.len() {
                    assert(rest[i] == s);
                }
                assert(s == last);
                assert(after[after.len() - 1] == s);
            }
        }
        if out.no_duplicates() && !before.contains(last) {
            assert forall|i: int, j: int| 0 <= i < after.len() && 0 <= j < after.len() && i != j implies after[i]
                != after[j] by {
                if i < before.len() && j < before.len() {
                    assert(before[i] != before[j]);
                } else if i < before.len() {
                    assert(before.contains(before[i]));
                } else {
                    assert(before.contains(before[j]));
                }
            }
        }
    }
}

/// A flag is named exactly where it was given, and the flags are named in this order:
/// capabilities, security options, the user namespace, privileges, and the init process.
pub proof fn the_flags_that_were_given_are_named(resolved: ResolvedRunArgs)
    ensures
        ({
            let flags = flags_beyond_env(resolved);
            &&& flags.contains("--cap-add"@) <==> resolved.cap_add@.len() > 0
            &&& flags.contains("--security-opt"@) <==> resolved.security_opt@.len() > 0
            &&& flags.contains("--userns"@) <==> resolved.userns_mode is Some
            &&& flags.contains("--privileged"@) <==> resolved.privileged
            &&& flags.contains("--init"@) <==> resolved.init
            &&& resolved.cap_add@.len() > 0 ==> flags[0] == "--cap-add"@
            &&& resolved.init ==> flags.last() == "--init"@
        }),
{
    reveal_strlit("--cap-add");
    reveal_strlit("--security-opt");
    reveal_strlit("--userns");
    reveal_strlit("--privileged");
    reveal_strlit("--init");
    assert("--cap-add"@.len() == 9 && "--security-opt"@.len() == 14 && "--userns"@.len() == 8);
    assert("--privileged"@.len() == 12 && "--init"@.len() == 6);
    let none = Seq::<Seq<char>>::empty();
    let a = if resolved.cap_add@.len() > 0 {
        none.push("--cap-add"@)
    } else {
        none
    };
    let b = if resolved.security_opt@.len() > 0 {
        a.push("--security-opt"@)
    } else {
        a
    };
    let c = if resolved.userns_mode is Some {
        b.push("--userns"@)
    } else {
        b
    };
    let d = if resolved.privileged {
        c.push("--privileged"@)
    } else {
        c
    };
    let flags = flags_beyond_env(resolved);
    if resolved.cap_add@.len() > 0 {
        assert(flags[0] == "--cap-add"@);
    }
    if resolved.security_opt@.len() > 0 {
        assert(flags[a.len() as int] == "--security-opt"@);
    }
    if resolved.userns_mode is Some {
        assert(flags[b.len() as int] == "--userns"@);
    }
    if resolved.privileged {
        assert(flags[c.len() as int] == "--privileged"@);
    }
    if resolved.init {
        assert(flags[d.len() as int] == "--init"@);
    }
}

/// A Compose project is refused where it declares run arguments of its own and there are
/// some; no other project is, nor one whose arguments come from elsewhere.
pub proof fn compose_takes_no_run_args(config: DevcontainerConfig, declared: bool, args: Vec<String>)
    ensures
        config.run_args is None ==> !run_args_on_compose(config, declared),
        config.run_args == Some(args) ==> (run_args_on_compose(config, declared) <==> config.compose() && declared
            && args@.len() > 0),
{
}

} // verus!

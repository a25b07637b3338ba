//! What comes before anything is made: what a project may not have, and what is
//! validated and done first.
use vstd::prelude::*;

use crate::up::flow::{Failure, Stage, Up, UpAction, UpEvent, UpRequest};
use crate::up::flow_laws::images::{answered, came, nothing_came, still_answered};
use crate::up::flow_laws::{after, following, in_turn, in_turn_before, step_of, touches};
use crate::up::run_args::ResolvedRunArgs;
use crate::up::secrets::ValidatedSecrets;

verus! {

/// The translated `runArgs` set more than the environment.
pub open spec fn beyond_env(resolved: ResolvedRunArgs) -> bool {
    resolved.cap_add@.len() > 0 || resolved.security_opt@.len() > 0 || resolved.userns_mode is Some
        || resolved.privileged || resolved.init
}

/// Some reference is injected when the container is created.
pub open spec fn some_at_create_time(secrets: ValidatedSecrets) -> bool {
    exists|i: int| 0 <= i < secrets.entries@.len() && (#[trigger] secrets.entries@[i]).create_time
}

/// The `runArgs` were translated, and the runtime takes them.
#[verifier::opaque]
pub open spec fn run_args_taken(req: UpRequest, events: Seq<UpEvent>) -> bool {
    exists|resolved: ResolvedRunArgs| #[trigger]
        answered(req, events, UpAction::ResolveRunArgs, UpEvent::RunArgsResolved(resolved)) && !(req.runtime_name@
            == "apple"@ && beyond_env(resolved))
}

/// The file of secrets was loaded, where one was given.
pub open spec fn file_loaded(req: UpRequest, events: Seq<UpEvent>) -> bool {
    req.secrets_file is Some ==> answered(req, events, UpAction::LoadSecretsFile, UpEvent::Done)
}

/// Every reference to a secret was validated.
#[verifier::opaque]
pub open spec fn secrets_validated(req: UpRequest, events: Seq<UpEvent>) -> bool {
    exists|secrets: ValidatedSecrets| #[trigger]
        answered(req, events, UpAction::ValidateSecrets, UpEvent::SecretsValidated(secrets))
}

/// The host's own command was run, where there is one.
pub open spec fn initialized(req: UpRequest, events: Seq<UpEvent>) -> bool {
    req.config.initialize_command is Some ==> answered(req, events, UpAction::RunInitializeCommand, UpEvent::Done)
}

spec fn prepared(req: UpRequest, events: Seq<UpEvent>) -> bool {
    !req.config.compose() && run_args_taken(req, events) && file_loaded(req, events) && secrets_validated(req, events)
}

/// The project has nothing that a Compose project cannot have.
pub open spec fn fit_for_compose(req: UpRequest) -> bool {
    &&& !(req.project_declared_run_args && req.config.run_args is Some && req.config.run_args->Some_0@.len() > 0)
    &&& req.secrets_file is None
    &&& req.secrets_override is None
}

spec fn preparation_record(req: UpRequest, events: Seq<UpEvent>, up: Up, action: UpAction) -> bool {
    match up.stage {
        Stage::Start => true,
        Stage::Ended => true,
        Stage::ComposeSecrets => req.config.compose() && fit_for_compose(req) && action is ValidateSecrets,
        Stage::RunArgs => !req.config.compose() && action is ResolveRunArgs,
        Stage::SecretsFile => !req.config.compose() && run_args_taken(req, events) && req.secrets_file is Some
            && action is LoadSecretsFile,
        Stage::Secrets => !req.config.compose() && run_args_taken(req, events) && file_loaded(req, events)
            && action is ValidateSecrets,
        Stage::Initialize => prepared(req, events) && req.config.initialize_command is Some
            && action is RunInitializeCommand,
        _ => prepared(req, events) && initialized(req, events),
    }
}

spec fn preparing(stage: Stage) -> bool {
    stage is Start || stage is ComposeSecrets || stage is RunArgs || stage is SecretsFile || stage is Secrets
        || stage is Initialize
}

proof fn flags_are_beyond_env(resolved: ResolvedRunArgs)
    ensures
        crate::up::run_args::flags_beyond_env(resolved).len() > 0 <==> beyond_env(resolved),
{
}

proof fn preparation_step(req: UpRequest, up: Up, event: UpEvent)
    requires
        crate::up::flow::fits(up.stage, event),
    ensures
        ({
            let (next, step) = following(req, up, event);
            &&& match next.stage {
                Stage::Start => false,
                Stage::Ended => true,
                Stage::ComposeSecrets => up.stage is Start && req.config.compose() && fit_for_compose(req)
                    && step.action is ValidateSecrets,
                Stage::RunArgs => up.stage is Start && !req.config.compose() && step.action is ResolveRunArgs,
                Stage::SecretsFile => up.stage is RunArgs && event is RunArgsResolved && !(req.runtime_name@
                    == "apple"@ && beyond_env(event->RunArgsResolved_0)) && req.secrets_file is Some
                    && step.action is LoadSecretsFile,
                Stage::Secrets => step.action is ValidateSecrets && (up.stage is RunArgs && event is RunArgsResolved
                    && !(req.runtime_name@ == "apple"@ && beyond_env(event->RunArgsResolved_0))
                    && req.secrets_file is None || up.stage is SecretsFile && event is Done),
                Stage::Initialize => up.stage is Secrets && event is SecretsValidated
                    && req.config.initialize_command is Some && step.action is RunInitializeCommand,
                _ => up.stage is Secrets && event is SecretsValidated && req.config.initialize_command is None
                    || up.stage is Initialize && event is Done || !preparing(up.stage) && !(up.stage is Ended),
            }
            &&& touches(step.action) ==> next.stage is Initialize || (!preparing(next.stage) && !(next.stage is Ended))
                || (!preparing(up.stage) && !(up.stage is Ended)) || step.action is GoOnAsCompose
            &&& step.action is RunInitializeCommand ==> next.stage is Initialize
            &&& next.stage is Initialize ==> step.action is RunInitializeCommand
            &&& step.action is GoOnAsCompose ==> up.stage is ComposeSecrets && event is SecretsValidated && !(
            req.config.compose() && event->SecretsValidated_0.source is Some && some_at_create_time(
                event->SecretsValidated_0,
            ))
        }),
{
    reveal(following);
    if let UpEvent::SecretsValidated(secrets) = event {
        crate::up::secrets::create_time_keys_are_of_references(secrets, Seq::empty());
    }
    if let UpEvent::RunArgsResolved(resolved) = event {
        flags_are_beyond_env(resolved);
    }
}

proof fn still_prepared(req: UpRequest, events: Seq<UpEvent>)
    requires
        events.len() > 0,
    ensures
        run_args_taken(req, events.drop_last()) ==> run_args_taken(req, events),
        file_loaded(req, events.drop_last()) ==> file_loaded(req, events),
        secrets_validated(req, events.drop_last()) ==> secrets_validated(req, events),
        initialized(req, events.drop_last()) ==> initialized(req, events),
{
    reveal(run_args_taken);
    reveal(secrets_validated);
    still_answered(req, events);
    let rest = events.drop_last();
    if run_args_taken(req, rest) {
        let resolved = choose|resolved: ResolvedRunArgs| #[trigger]
            answered(req, rest, UpAction::ResolveRunArgs, UpEvent::RunArgsResolved(resolved)) && !(req.runtime_name@
                == "apple"@ && beyond_env(resolved));
        assert(answered(req, events, UpAction::ResolveRunArgs, UpEvent::RunArgsResolved(resolved)));
    }
    if secrets_validated(req, rest) {
        let secrets = choose|secrets: ValidatedSecrets| #[trigger]
            answered(req, rest, UpAction::ValidateSecrets, UpEvent::SecretsValidated(secrets));
        assert(answered(req, events, UpAction::ValidateSecrets, UpEvent::SecretsValidated(secrets)));
    }
}

proof fn preparation_invariant(req: UpRequest, events: Seq<UpEvent>)
    requires
        in_turn(req, events),
    ensures
        preparation_record(req, events, after(req, events), step_of(req, events).action),
        events.len() == 1 ==> !preparing(after(req, events).stage) ==> after(req, events).stage is Ended,
    decreases events.len(),
{
    if events.len() > 0 {
        let rest = events.drop_last();
        let up = after(req, rest);
        let event = events.last();
        in_turn_before(req, events);
        preparation_invariant(req, rest);
        preparation_step(req, up, event);
        still_answered(req, events);
        still_prepared(req, events);
        if rest.len() > 0 {
            let action = step_of(req, rest).action;
            assert(answered(req, events, action, event));
            if up.stage is RunArgs && event is RunArgsResolved {
                let resolved = event->RunArgsResolved_0;
                assert(event == UpEvent::RunArgsResolved(resolved));
                assert(action == UpAction::ResolveRunArgs);
                assert(answered(req, events, UpAction::ResolveRunArgs, UpEvent::RunArgsResolved(resolved)));
                reveal(run_args_taken);
            }
            if up.stage is Secrets && event is SecretsValidated {
                let secrets = event->SecretsValidated_0;
                assert(action == UpAction::ValidateSecrets);
                assert(answered(req, events, UpAction::ValidateSecrets, UpEvent::SecretsValidated(secrets)));
                reveal(secrets_validated);
            }
        }
    }
}

/// Whatever is touched in a project that is no Compose project is touched after its
/// `runArgs` were translated and found to be ones that the runtime takes, after the
/// file of secrets was loaded, where one was given, and after the references to
/// secrets were validated; and whatever is touched but by the host's own command,
/// after that command was run.
pub proof fn what_comes_first_is_done_first(req: UpRequest, events: Seq<UpEvent>)
    requires
        in_turn(req, events),
        events.len() > 0,
    ensures
        touches(step_of(req, events).action) && !(step_of(req, events).action is GoOnAsCompose) ==> {
            &&& req.config.docker_compose_file is None
            &&& run_args_taken(req, events)
            &&& file_loaded(req, events)
            &&& secrets_validated(req, events)
            &&& step_of(req, events).action is RunInitializeCommand ==> req.config.initialize_command is Some
            &&& !(step_of(req, events).action is RunInitializeCommand) ==> initialized(req, events)
        },
{
    let rest = events.drop_last();
    in_turn_before(req, events);
    preparation_invariant(req, rest);
    preparation_invariant(req, events);
    preparation_step(req, after(req, rest), events.last());
    still_prepared(req, events);
}

/// A Compose project is gone on with only where neither it nor the request has what
/// such a project cannot have: `runArgs` of its own, a file of secrets, an override
/// of its secrets, or references that are injected when a container is created.
pub proof fn compose_projects_are_fit_for_it(req: UpRequest, events: Seq<UpEvent>)
    requires
        in_turn(req, events),
        events.len() > 0,
        step_of(req, events).action is GoOnAsCompose,
    ensures
        req.config.docker_compose_file is Some,
        fit_for_compose(req),
        exists|secrets: ValidatedSecrets| #[trigger]
            answered(req, events, UpAction::ValidateSecrets, UpEvent::SecretsValidated(secrets)) && !(
            secrets.source is Some && some_at_create_time(secrets)),
{
    let rest = events.drop_last();
    in_turn_before(req, events);
    preparation_invariant(req, rest);
    preparation_step(req, after(req, rest), events.last());
    still_answered(req, events);
    let secrets = events.last()->SecretsValidated_0;
    assert(events.last() == UpEvent::SecretsValidated(secrets));
    assert(rest.len() > 0);
    assert(step_of(req, rest).action == UpAction::ValidateSecrets);
    assert(answered(req, events, UpAction::ValidateSecrets, UpEvent::SecretsValidated(secrets)));
}

/// What `dev up` begins with: what a Compose project cannot have is refused, the
/// first that there is; else its secrets are validated; and the `runArgs` of any
/// other project are translated.
pub proof fn how_it_begins(req: UpRequest)
    ensures
        ({
            let action = step_of(req, seq![UpEvent::Begin]).action;
            let compose = req.config.docker_compose_file is Some;
            let run_args = req.project_declared_run_args && req.config.run_args is Some
                && req.config.run_args->Some_0@.len() > 0;
            &&& !compose ==> action is ResolveRunArgs
            &&& compose && run_args ==> action == UpAction::Fail(Failure::RunArgsOnCompose)
            &&& compose && !run_args && req.secrets_file is Some ==> action == UpAction::Fail(
                Failure::SecretsFileOnCompose,
            )
            &&& compose && !run_args && req.secrets_file is None && req.secrets_override is Some ==> action
                == UpAction::Fail(Failure::SecretsOverrideOnCompose)
            &&& compose && !run_args && req.secrets_file is None && req.secrets_override is None ==> action
                == UpAction::ValidateSecrets
        }),
{
    reveal(following);
    let events = seq![UpEvent::Begin];
    assert(events.drop_last() =~= Seq::empty());
    assert(after(req, events.drop_last()) == crate::up::flow::up_start());
}

proof fn first_actions(req: UpRequest, up: Up, event: UpEvent)
    requires
        crate::up::flow::fits(up.stage, event),
    ensures
        ({
            let (next, step) = following(req, up, event);
            &&& step.action is ResolveRunArgs ==> next.stage is RunArgs
            &&& step.action is LoadSecretsFile ==> next.stage is SecretsFile
            &&& step.action is ValidateSecrets ==> next.stage is ComposeSecrets || next.stage is Secrets
            &&& step.action is RunInitializeCommand ==> next.stage is Initialize
        }),
{
    reveal(following);
}

/// What the translated `runArgs`, and what the validated secrets, lead to.
pub proof fn what_validation_leads_to(req: UpRequest, events: Seq<UpEvent>)
    requires
        in_turn(req, events),
        events.len() > 1,
    ensures
        ({
            let asked = step_of(req, events.drop_last()).action;
            let next = step_of(req, events).action;
            &&& asked is ResolveRunArgs && events.last() is RunArgsResolved ==> {
                let resolved = events.last()->RunArgsResolved_0;
                if req.runtime_name@ == "apple"@ && beyond_env(resolved) {
                    next == UpAction::Fail(Failure::RunArgsUnsupported(resolved))
                } else if req.secrets_file is Some {
                    next == UpAction::LoadSecretsFile
                } else {
                    next == UpAction::ValidateSecrets
                }
            }
            &&& asked is LoadSecretsFile && events.last() is Done ==> next == UpAction::ValidateSecrets
            &&& asked is ValidateSecrets && events.last() is SecretsValidated ==> {
                let secrets = events.last()->SecretsValidated_0;
                if req.config.docker_compose_file is Some {
                    if secrets.source is Some && some_at_create_time(secrets) {
                        next == UpAction::Fail(Failure::CreateTimeSecretsOnCompose(secrets))
                    } else {
                        next == UpAction::GoOnAsCompose
                    }
                } else if req.config.initialize_command is Some {
                    next == UpAction::RunInitializeCommand
                } else {
                    next == UpAction::ListByLabels
                }
            }
            &&& asked is RunInitializeCommand && events.last() is Done ==> next == UpAction::ListByLabels
        }),
{
    let rest = events.drop_last();
    in_turn_before(req, events);
    in_turn_before(req, rest);
    preparation_invariant(req, rest);
    first_actions(req, after(req, rest.drop_last()), rest.last());
    if let UpEvent::SecretsValidated(secrets) = events.last() {
        crate::up::secrets::create_time_keys_are_of_references(secrets, Seq::empty());
    }
    if let UpEvent::RunArgsResolved(resolved) = events.last() {
        flags_are_beyond_env(resolved);
    }
    reveal(following);
}

// ---------------------------------------------------------------------------
// Secrets at create time
// ---------------------------------------------------------------------------

spec fn before_secrets(stage: Stage) -> bool {
    stage is Start || stage is ComposeSecrets || stage is RunArgs || stage is SecretsFile || stage is Secrets
}

spec fn secrets_wanted(stage: Stage) -> bool {
    stage is CreateUser || stage is Remap || stage is Mounts || stage is CreateFolder || stage is Create
        || stage is CreateStart || stage is CreateVerify || stage is CreateHooks || stage is Dotfiles || stage is Sites
}

proof fn secrets_step(req: UpRequest, up: Up, event: UpEvent)
    requires
        crate::up::flow::fits(up.stage, event),
    ensures
        ({
            let (next, step) = following(req, up, event);
            &&& event is SecretsValidated <==> (up.stage is Secrets || up.stage is ComposeSecrets) && !(
            event is Failed)
            &&& event is SecretsValidated ==> !before_secrets(next.stage) && !secrets_wanted(next.stage)
                && !(step.action is ResolveSecrets)
            &&& event is SecretsValidated && !(next.stage is Ended) ==> next.create_time_secrets
                == some_at_create_time(event->SecretsValidated_0)
            &&& !(event is SecretsValidated) ==> next.create_time_secrets == up.create_time_secrets
            &&& before_secrets(next.stage) ==> before_secrets(up.stage) && !(event is SecretsValidated)
            &&& secrets_wanted(next.stage) ==> secrets_wanted(up.stage) || !up.create_time_secrets || up.stage
                is CreateSecrets && event is Done
            &&& step.action is ResolveSecrets ==> up.create_time_secrets && !(up.stage is Ended)
                && next.stage is CreateSecrets
            &&& next.stage is CreateSecrets ==> step.action is ResolveSecrets
            &&& step.action is CreateContainer ==> secrets_wanted(next.stage)
            &&& before_secrets(up.stage) && !(event is SecretsValidated) ==> before_secrets(next.stage)
                || next.stage is Ended
        }),
{
    reveal(following);
    if let UpEvent::SecretsValidated(secrets) = event {
        crate::up::secrets::create_time_keys_are_of_references(secrets, Seq::empty());
    }
}

proof fn secrets_come_once(req: UpRequest, events: Seq<UpEvent>)
    requires
        in_turn(req, events),
    ensures
        before_secrets(after(req, events).stage) ==> forall|s: ValidatedSecrets|
            !#[trigger] came(events, UpEvent::SecretsValidated(s)),
    decreases events.len(),
{
    if events.len() > 0 {
        in_turn_before(req, events);
        secrets_come_once(req, events.drop_last());
        secrets_step(req, after(req, events.drop_last()), events.last());
        still_answered(req, events);
    } else {
        assert forall|s: ValidatedSecrets| !#[trigger] came(events, UpEvent::SecretsValidated(s)) by {
            nothing_came(UpEvent::SecretsValidated(s));
            assert(events =~= Seq::empty());
        }
    }
}

proof fn secrets_invariant(req: UpRequest, events: Seq<UpEvent>, secrets: ValidatedSecrets)
    requires
        in_turn(req, events),
        came(events, UpEvent::SecretsValidated(secrets)),
    ensures
        ({
            let up = after(req, events);
            &&& !before_secrets(up.stage)
            &&& !(up.stage is Ended) ==> up.create_time_secrets == some_at_create_time(secrets)
            &&& secrets_wanted(up.stage) && some_at_create_time(secrets) ==> answered(
                req,
                events,
                UpAction::ResolveSecrets,
                UpEvent::Done,
            )
            &&& up.stage is CreateSecrets ==> step_of(req, events).action is ResolveSecrets
            &&& step_of(req, events).action is ResolveSecrets ==> some_at_create_time(secrets)
            &&& step_of(req, events).action is CreateContainer ==> secrets_wanted(up.stage)
        }),
    decreases events.len(),
{
    nothing_came(UpEvent::SecretsValidated(secrets));
    if events.len() == 0 {
        assert(events =~= Seq::empty());
    } else {
        let rest = events.drop_last();
        let up = after(req, rest);
        in_turn_before(req, events);
        still_answered(req, events);
        secrets_step(req, up, events.last());
        if events.last() is SecretsValidated {
            if up.stage is Secrets || up.stage is ComposeSecrets {
                secrets_come_once(req, rest);
            }
        } else {
            secrets_invariant(req, rest, secrets);
            if rest.len() == 0 {
                assert(rest =~= Seq::empty());
            }
        }
    }
}

/// Where some reference is injected when the container is created, no container is
/// created before the providers were asked and answered; and they are asked for
/// nothing where there is no such reference.
pub proof fn create_time_secrets_are_there_in_time(req: UpRequest, events: Seq<UpEvent>, secrets: ValidatedSecrets)
    requires
        in_turn(req, events),
        came(events, UpEvent::SecretsValidated(secrets)),
    ensures
        step_of(req, events).action is CreateContainer && some_at_create_time(secrets) ==> answered(
            req,
            events,
            UpAction::ResolveSecrets,
            UpEvent::Done,
        ),
        step_of(req, events).action is ResolveSecrets ==> some_at_create_time(secrets),
{
    secrets_invariant(req, events, secrets);
}

} // verus!

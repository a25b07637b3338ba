//! Smaller pieces of `dev up`: the image, the host's command, the dotfiles, the
//! features' contributions.
use vstd::prelude::*;

use crate::model::{copy_texts, gathered, gathered_step, DotfilesConfig, ExecResult, LifecycleCommand};
use crate::number::show_signed;
use crate::text::{cat2, cat3, cat4, cat5, owned, replace, texts};

verus! {

// ---------------------------------------------------------------------------
// The image
// ---------------------------------------------------------------------------

/// What an image needs before it can be used.
#[derive(Debug, PartialEq, Eq)]
pub struct ImageNeed {
    /// What is said before anything is done.
    pub say: String,
    pub pull: bool,
}

/// An image that is there is used as it is; one that is not is pulled.
pub fn ensure_image_present(image: &str, exists: bool) -> (r: ImageNeed)
    ensures
        r.pull == !exists,
        exists ==> r.say@ == "Using local image '"@ + image@ + "'..."@,
        !exists ==> r.say@ == "Pulling image '"@ + image@ + "'..."@,
{
    if exists {
        ImageNeed { say: cat3("Using local image '", image, "'..."), pull: false }
    } else {
        ImageNeed { say: cat3("Pulling image '", image, "'..."), pull: true }
    }
}

// ---------------------------------------------------------------------------
// The host's command
// ---------------------------------------------------------------------------

/// The commands of an `initializeCommand`, in the order they are run.
pub open spec fn commands_of(cmd: LifecycleCommand) -> Seq<Seq<char>> {
    match cmd {
        LifecycleCommand::Single(command) => seq![command@],
        LifecycleCommand::Multiple(commands) => texts(commands@),
        LifecycleCommand::Parallel(commands) => commands@.map_values(|c: (String, String)| c.1@),
    }
}

/// The commands of an `initializeCommand`, in the order they are run.
pub fn initialize_commands(cmd: &LifecycleCommand) -> (r: Vec<String>)
    ensures
        texts(r@) == commands_of(*cmd),
{
    match cmd {
        LifecycleCommand::Single(command) => {
            let v: Vec<String> = vec![command.clone()];
            assert(texts(v@) =~= seq![command@]);
            v
        },
        LifecycleCommand::Multiple(commands) => copy_texts(commands),
        LifecycleCommand::Parallel(commands) => {
            let mut out: Vec<String> = Vec::new();
            let mut i: usize = 0;
            let ghost all = commands@.map_values(|c: (String, String)| c.1@);
            assert(texts(out@) == all.take(0));
            while i < commands.len()
                invariant
                    all == commands@.map_values(|c: (String, String)| c.1@),
                    i <= commands@.len(),
                    texts(out@) == all.take(i as int),
                decreases commands@.len() - i,
            {
                let ghost before = texts(out@);
                out.push(commands[i].1.clone());
                i = i + 1;
                proof {
                    assert(texts(out@) == before.push(all[i - 1]));
                    assert(all.take(i as int) == before.push(all[i - 1]));
                }
            }
            assert(all.take(all.len() as int) == all);
            out
        },
    }
}

/// What is said before a command of the host's is run.
pub fn initialize_notice(command: &str) -> (r: String)
    ensures
        r@ == "[lifecycle] Running initializeCommand: "@ + command@,
{
    cat2("[lifecycle] Running initializeCommand: ", command)
}

/// The exit status that is reported: -1 for a command that had none.
pub open spec fn reported_status(code: Option<i32>) -> int {
    match code {
        Some(code) => code as int,
        None => -1,
    }
}

/// The host's commands, one after the other.
pub struct InitializeRun {
    commands: Vec<String>,
    at: usize,
}

impl InitializeRun {
    /// The commands that are still to be run, the next one first.
    pub closed spec fn rest(&self) -> Seq<Seq<char>> {
        texts(self.commands@).skip(self.at as int)
    }

    pub closed spec fn wf(&self) -> bool {
        self.at <= self.commands@.len()
    }

    /// All commands are still to be run.
    pub fn new(cmd: &LifecycleCommand) -> (r: Self)
        ensures
            r.wf(),
            r.rest() == commands_of(*cmd),
    {
        let commands = initialize_commands(cmd);
        assert(texts(commands@).skip(0) == texts(commands@));
        InitializeRun { commands, at: 0 }
    }

    /// The command to run next, if one is left.
    pub fn next(&self) -> (r: Option<String>)
        requires
            self.wf(),
        ensures
            r is None <==> self.rest().len() == 0,
            r matches Some(command) ==> command@ == self.rest()[0],
    {
        if self.at < self.commands.len() {
            Some(self.commands[self.at].clone())
        } else {
            None
        }
    }

    /// Take the exit of the command that was run: on to the next if it
    /// succeeded, else the end, with its status and itself in the message.
    pub fn exited(&mut self, success: bool, code: Option<i32>) -> (r: Result<(), String>)
        requires
            old(self).wf(),
            old(self).rest().len() > 0,
        ensures
            final(self).wf(),
            r is Ok <==> success,
            success ==> final(self).rest() == old(self).rest().drop_first(),
            !success ==> final(self).rest() == old(self).rest(),
            r matches Err(e) ==> e@ == "initializeCommand failed (exit "@ + crate::number::decimal_int(
                reported_status(code),
            ) + "): "@ + old(self).rest()[0],
    {
        if !success {
            let status = show_signed(
                match code {
                    Some(code) => code,
                    None => -1,
                },
            );
            return Err(
                cat4(
                    "initializeCommand failed (exit ",
                    status.as_str(),
                    "): ",
                    self.commands[self.at].as_str(),
                ),
            );
        }
        let ghost before = self.rest();
        assert(self.at < self.commands.len());
        self.at = self.at + 1;
        assert(self.rest() == before.drop_first());
        Ok(())
    }
}

// ---------------------------------------------------------------------------
// Dotfiles
// ---------------------------------------------------------------------------

/// A text with its single quotes written so that they stand inside single
/// quotes for a shell.
pub open spec fn inside_quotes(s: Seq<char>) -> Seq<char> {
    crate::text::replaced(s, '\'', "'\\''"@)
}

/// Where dotfiles are cloned to.
pub open spec fn dotfiles_target(d: DotfilesConfig) -> Seq<char> {
    match d.target_path {
        Some(path) => path@,
        None => "~/dotfiles"@,
    }
}

/// The shell command that clones the dotfiles.
pub open spec fn clone_script(d: DotfilesConfig) -> Seq<char> {
    "git clone --depth 1 '"@ + inside_quotes(d.repository@) + "' '"@ + inside_quotes(dotfiles_target(d))
        + "'"@
}

/// A step of installing dotfiles: something to say, and a command to run.
#[derive(Debug, PartialEq, Eq)]
pub struct DotfilesStep {
    pub say: Option<String>,
    pub run: Option<Vec<String>>,
}

/// The arguments that have a shell run a script.
pub open spec fn shell_args(script: Seq<char>) -> Seq<Seq<char>> {
    seq!["sh"@, "-c"@, script]
}

fn shell_command(script: String) -> (r: Vec<String>)
    ensures
        texts(r@) == shell_args(script@),
{
    let ghost text = script@;
    let v: Vec<String> = vec![owned("sh"), owned("-c"), script];
    assert(texts(v@) =~= shell_args(text));
    v
}

/// First the repository is cloned.
pub fn clone_dotfiles(dotfiles: &DotfilesConfig) -> (r: DotfilesStep)
    ensures
        r.say is Some && r.say->Some_0@ == "Cloning dotfiles from "@ + dotfiles.repository@ + "..."@,
        r.run is Some && texts(r.run->Some_0@) == shell_args(clone_script(*dotfiles)),
{
    let repository = replace(dotfiles.repository.as_str(), '\'', "'\\''");
    let target = match &dotfiles.target_path {
        Some(path) => replace(path.as_str(), '\'', "'\\''"),
        None => replace("~/dotfiles", '\'', "'\\''"),
    };
    let script = cat5(
        "git clone --depth 1 '",
        repository.as_str(),
        "' '",
        target.as_str(),
        "'",
    );
    DotfilesStep {
        say: Some(cat3("Cloning dotfiles from ", dotfiles.repository.as_str(), "...")),
        run: Some(shell_command(script)),
    }
}

/// The warning about a step of installing dotfiles that failed.
pub open spec fn dotfiles_warning(what: Seq<char>, result: ExecResult) -> Seq<char> {
    "Warning: "@ + what + " (exit "@ + crate::number::decimal_int(result.exit_code as int) + "):\n"@
        + result.stderr@
}

fn warn_dotfiles(what: &str, result: &ExecResult) -> (r: String)
    ensures
        r@ == dotfiles_warning(what@, *result),
{
    let status = show_signed(result.exit_code);
    let mut out = cat4("Warning: ", what, " (exit ", status.as_str());
    out.append("):\n");
    out.append(result.stderr.as_str());
    out
}

/// Then the install command is run, if there is one. A clone that failed is
/// warned about, and ends it.
pub fn dotfiles_cloned(dotfiles: &DotfilesConfig, result: &ExecResult) -> (r: DotfilesStep)
    ensures
        result.exit_code != 0 ==> r.run is None && r.say is Some && r.say->Some_0@ == dotfiles_warning(
            "failed to clone dotfiles"@,
            *result,
        ),
        result.exit_code == 0 ==> match dotfiles.install_command {
            Some(command) => {
                &&& r.say is Some && r.say->Some_0@ == "Running dotfiles install command: "@ + command@
                &&& r.run is Some && texts(r.run->Some_0@) == shell_args(command@)
            },
            None => r.run is None && r.say is None,
        },
{
    if result.exit_code != 0 {
        return DotfilesStep {
            say: Some(warn_dotfiles("failed to clone dotfiles", result)),
            run: None,
        };
    }
    match &dotfiles.install_command {
        Some(command) => DotfilesStep {
            say: Some(cat2("Running dotfiles install command: ", command.as_str())),
            run: Some(shell_command(command.clone())),
        },
        None => DotfilesStep { say: None, run: None },
    }
}

/// An install command that failed is warned about; that ends it either way.
pub fn dotfiles_installed(result: &ExecResult) -> (r: DotfilesStep)
    ensures
        r.run is None,
        result.exit_code == 0 ==> r.say is None,
        result.exit_code != 0 ==> r.say is Some && r.say->Some_0@ == dotfiles_warning(
            "dotfiles install command failed"@,
            *result,
        ),
{
    if result.exit_code != 0 {
        return DotfilesStep {
            say: Some(warn_dotfiles("dotfiles install command failed", result)),
            run: None,
        };
    }
    DotfilesStep { say: None, run: None }
}

// ---------------------------------------------------------------------------
// Features
// ---------------------------------------------------------------------------

/// A feature, as far as the container's configuration depends on it.
#[derive(Debug, PartialEq, Eq)]
pub struct ResolvedFeature {
    pub id: String,
    pub entrypoint: Option<String>,
    /// The mount string of each mount entry, where it gives one; and the entry
    /// as it was written.
    pub mounts: Vec<(Option<String>, String)>,
}

/// The entrypoints of the features that have one, in install order.
pub fn feature_entrypoints(features: &Vec<ResolvedFeature>) -> (r: Vec<String>)
    ensures
        texts(r@) == gathered(features@, |f: ResolvedFeature| crate::text::text_opt(f.entrypoint)),
{
    let ghost g = |f: ResolvedFeature| crate::text::text_opt(f.entrypoint);
    let mut out: Vec<String> = Vec::new();
    let mut i: usize = 0;
    assert(texts(out@) == gathered(features@.take(0), g));
    while i < features.len()
        invariant
            g == (|f: ResolvedFeature| crate::text::text_opt(f.entrypoint)),
            i <= features@.len(),
            texts(out@) == gathered(features@.take(i as int), g),
        decreases features@.len() - i,
    {
        proof {
            gathered_step(features@, g, i as int);
        }
        let ghost before = texts(out@);
        match &features[i].entrypoint {
            Some(entrypoint) => {
                out.push(entrypoint.clone());
                assert(texts(out@) == before.push(entrypoint@));
            },
            None => {},
        }
        i = i + 1;
    }
    assert(features@.take(features@.len() as int) == features@);
    out
}

/// The mount strings of one feature.
pub open spec fn mounts_of(f: ResolvedFeature) -> Seq<Seq<char>> {
    gathered(f.mounts@, |m: (Option<String>, String)| crate::text::text_opt(m.0))
}

/// The mount strings of features, in install order.
pub open spec fn feature_mounts(features: Seq<ResolvedFeature>) -> Seq<Seq<char>>
    decreases features.len(),
{
    if features.len() == 0 {
        Seq::empty()
    } else {
        feature_mounts(features.drop_last()) + mounts_of(features.last())
    }
}

/// The mount strings of the features, in install order. An entry that gives
/// none is passed over.
pub fn feature_mount_strings(features: &Vec<ResolvedFeature>) -> (r: Vec<String>)
    ensures
        texts(r@) == feature_mounts(features@),
{
    let ghost g = |m: (Option<String>, String)| crate::text::text_opt(m.0);
    let mut out: Vec<String> = Vec::new();
    let mut i: usize = 0;
    assert(texts(out@) == feature_mounts(features@.take(0)));
    while i < features.len()
        invariant
            g == (|m: (Option<String>, String)| crate::text::text_opt(m.0)),
            i <= features@.len(),
            texts(out@) == feature_mounts(features@.take(i as int)),
        decreases features@.len() - i,
    {
        let mounts = &features[i].mounts;
        let ghost before = texts(out@);
        let mut k: usize = 0;
        assert(before + gathered(mounts@.take(0), g) == before);
        while k < mounts.len()
            invariant
                g == (|m: (Option<String>, String)| crate::text::text_opt(m.0)),
                k <= mounts@.len(),
                texts(out@) == before + gathered(mounts@.take(k as int), g),
            decreases mounts@.len() - k,
        {
            proof {
                gathered_step(mounts@, g, k as int);
            }
            let ghost so_far = texts(out@);
            match &mounts[k].0 {
                Some(mount) => {
                    out.push(mount.clone());
                    proof {
                        assert(texts(out@) == so_far.push(mount@));
                        assert(so_far.push(mount@) == before + gathered(mounts@.take(k as int), g).push(
                            mount@,
                        ));
                    }
                },
                None => {},
            }
            k = k + 1;
        }
        i = i + 1;
        proof {
            assert(mounts@.take(mounts@.len() as int) == mounts@);
            assert(features@.take(i as int).drop_last() == features@.take(i - 1));
            assert(features@.take(i as int).last() == features@[i - 1]);
        }
    }
    assert(features@.take(features@.len() as int) == features@);
    out
}

/// What is said of a feature's mount entry that gives no mount string.
pub fn feature_mount_warning(feature_id: &str, raw: &str) -> (r: String)
    ensures
        r@ == "Warning: feature '"@ + feature_id@ + "' declares an invalid mount entry; skipping: "@ + raw@,
{
    cat4(
        "Warning: feature '",
        feature_id,
        "' declares an invalid mount entry; skipping: ",
        raw,
    )
}

/// The commands of the host: a single one, each of a list in its order, or each of the
/// named ones in theirs.
pub proof fn every_command_is_run(single: String, many: Vec<String>, named: Vec<(String, String)>, i: int)
    ensures
        commands_of(LifecycleCommand::Single(single)) == seq![single@],
        commands_of(LifecycleCommand::Multiple(many)).len() == many@.len(),
        0 <= i < many@.len() ==> commands_of(LifecycleCommand::Multiple(many))[i] == many@[i]@,
        commands_of(LifecycleCommand::Parallel(named)).len() == named@.len(),
        0 <= i < named@.len() ==> commands_of(LifecycleCommand::Parallel(named))[i] == named@[i].1@,
{
}

/// A command that was ended by a signal is reported as having exited with -1.
pub proof fn no_status_is_reported_as_minus_one(code: i32)
    ensures
        reported_status(Some(code)) == code,
        reported_status(None) == -1,
{
}

/// A shell reads the clone of the dotfiles as a shallow clone of the very repository
/// that was given, into the very folder that was given, whatever characters they have; and
/// into `~/dotfiles` where none was.
pub proof fn the_clone_is_read_as_it_was_meant(d: DotfilesConfig)
    ensures
        ({
            let behind = clone_script(d).skip("git clone --depth 1 "@.len() as int);
            let (repository, rest) = crate::shell::read_word(behind, false)->Some_0;
            &&& crate::text::begins_with(clone_script(d), "git clone --depth 1 "@)
            &&& crate::shell::read_word(behind, false) is Some
            &&& repository == d.repository@
            &&& rest.len() > 0 && rest[0] == ' '
            &&& crate::shell::read_word(rest.skip(1), false) == Some(
                (
                    match d.target_path {
                        Some(path) => path@,
                        None => "~/dotfiles"@,
                    },
                    Seq::<char>::empty(),
                ),
            )
        }),
{
    reveal_strlit("git clone --depth 1 '");
    reveal_strlit("git clone --depth 1 ");
    reveal_strlit("' '");
    reveal_strlit("'");
    let script = clone_script(d);
    let head = "git clone --depth 1 "@;
    let target = dotfiles_target(d);
    let last = crate::shell::quoted(target);
    let rest = seq![' '] + last;
    let behind = crate::shell::quoted(d.repository@) + rest;
    assert(script.take(head.len() as int) =~= head);
    assert(script.skip(head.len() as int) =~= behind);
    crate::shell::quoted_values_are_one_word(d.repository@, rest);
    assert(rest.skip(1) =~= last);
    crate::shell::quoted_values_are_one_word(target, Seq::empty());
    assert(last + Seq::<char>::empty() =~= last);
}

/// What is warned about names what failed, its status, and what it printed.
pub proof fn the_warning_names_the_status(what: Seq<char>, result: ExecResult)
    ensures
        dotfiles_warning(what, result) == "Warning: "@ + what + " (exit "@ + crate::number::decimal_int(
            result.exit_code as int,
        ) + "):\n"@ + result.stderr@,
        shell_args(what) == seq!["sh"@, "-c"@, what],
{
}

} // verus!

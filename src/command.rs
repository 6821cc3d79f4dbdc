use vstd::prelude::*;

use crate::catalog::{
    all_records_valid, catalog_of, record_error, record_is_valid, ConfiguredGitUsers,
};
use crate::config::{ConfigError, GitUserEmailAddress, GitUserName, LoadedConfiguration};
use crate::text::{trim_of, trim_str};

verus! {

/// The git configuration scope that identities are read from and written to.
#[derive(Debug, Clone, Copy, PartialEq, Eq, Structural)]
pub enum SwitchMode {
    Global,
    Local,
}

/// The `git config` flag that selects a scope.
pub open spec fn scope_flag(mode: SwitchMode) -> Seq<char> {
    match mode {
        SwitchMode::Global => "--global"@,
        SwitchMode::Local => "--local"@,
    }
}

/// The word that names a scope in a report.
pub open spec fn scope_token(mode: SwitchMode) -> Seq<char> {
    match mode {
        SwitchMode::Global => "global"@,
        SwitchMode::Local => "local"@,
    }
}

impl SwitchMode {
    /// Resolves the scope flags: `global` wins over `local`, as with
    /// `git config`; without `global` the scope is local.
    pub fn new(_local: bool, global: bool) -> (r: SwitchMode)
        ensures
            r == (if global {
                SwitchMode::Global
            } else {
                SwitchMode::Local
            }),
    {
        if global {
            SwitchMode::Global
        } else {
            SwitchMode::Local
        }
    }

    /// The `git config` flag of this scope.
    pub fn to_arg(&self) -> (r: &'static str)
        ensures
            r@ == scope_flag(*self),
    {
        match self {
            SwitchMode::Global => "--global",
            SwitchMode::Local => "--local",
        }
    }

    /// The word for this scope in a report.
    pub fn to_token(&self) -> (r: &'static str)
        ensures
            r@ == scope_token(*self),
    {
        match self {
            SwitchMode::Global => "global",
            SwitchMode::Local => "local",
        }
    }
}

/// The view of a list of arguments.
pub open spec fn args_view(v: Seq<String>) -> Seq<Seq<char>> {
    v.map_values(|s: String| s@)
}

/// `git config <scope> <key>`: reads one setting.
pub open spec fn read_args_of(mode: SwitchMode, key: Seq<char>) -> Seq<Seq<char>> {
    seq!["config"@, scope_flag(mode), key]
}

/// `git config <scope> <key> <value>`: writes one setting.
pub open spec fn write_args_of(mode: SwitchMode, key: Seq<char>, value: Seq<char>) -> Seq<
    Seq<char>,
> {
    seq!["config"@, scope_flag(mode), key, value]
}

/// The arguments of `git` that read `key` in the scope `mode`.
pub fn read_args(mode: SwitchMode, key: &str) -> (r: Vec<String>)
    ensures
        args_view(r@) == read_args_of(mode, key@),
{
    let mut r: Vec<String> = Vec::new();
    r.push("config".to_owned());
    r.push(mode.to_arg().to_owned());
    r.push(key.to_owned());
    assert(args_view(r@) =~= read_args_of(mode, key@));
    r
}

/// The arguments of `git` that set `key` to `value` in the scope `mode`.
pub fn write_args(mode: SwitchMode, key: &str, value: &str) -> (r: Vec<String>)
    ensures
        args_view(r@) == write_args_of(mode, key@, value@),
{
    let mut r = read_args(mode, key);
    let ghost before = r@;
    r.push(value.to_owned());
    assert(args_view(r@) =~= args_view(before).push(value@));
    assert(args_view(r@) =~= write_args_of(mode, key@, value@));
    r
}

/// The report of the identity that a scope holds, from what git printed for
/// `user.name` and `user.email`, each trimmed.
pub open spec fn outcome_text(name_out: Seq<char>, email_out: Seq<char>, mode: SwitchMode) -> Seq<
    char,
> {
    "user: "@ + trim_of(name_out) + ", email: "@ + trim_of(email_out) + " ["@ + scope_token(mode)
        + "]"@
}

/// Formats `user: <name>, email: <email> [<scope>]` from git's raw output.
pub fn format_outcome(name_out: &str, email_out: &str, mode: SwitchMode) -> (r: String)
    ensures
        r@ == outcome_text(name_out@, email_out@, mode),
{
    let mut r = "user: ".to_owned();
    r.append(trim_str(name_out));
    r.append(", email: ");
    r.append(trim_str(email_out));
    r.append(" [");
    r.append(mode.to_token());
    r.append("]");
    r
}

/// Why one `git` invocation failed.
#[derive(Debug, PartialEq, Eq)]
pub enum GatewayError {
    /// `git` could not be launched, or exited unsuccessfully; the text says why.
    ProcessFailed(String),
    /// What `git` printed is not valid UTF-8.
    Encoding,
}

/// Why a switch failed.
#[derive(Debug, PartialEq, Eq)]
pub enum SwitchError {
    /// The chosen name is not in the catalog.
    UnknownIdentity(String),
    /// A `git` invocation failed.
    Gateway(GatewayError),
    /// An event came that the session was not waiting for.
    UnexpectedEvent,
}

/// How a switch ended.
#[derive(Debug, PartialEq, Eq)]
pub enum SwitchEnd {
    /// Both settings were written; the text reports what git holds now.
    Switched(String),
    /// The picker was closed without a choice; the text says why.
    Cancelled(String),
    Failed(SwitchError),
}

impl SwitchEnd {
    /// The process exit code: a closed picker is no failure.
    pub fn exit_code(&self) -> (r: i32)
        ensures
            r == 0 <==> !(*self is Failed),
            r == 0 || r == 1,
    {
        match self {
            SwitchEnd::Failed(_) => 1,
            _ => 0,
        }
    }
}

/// What the session asks its driver to do next.
#[derive(Debug, PartialEq, Eq)]
pub enum SwitchAction {
    /// Run `git` with these arguments and hand back its output.
    RunGit(Vec<String>),
    /// Stop: the switch has ended.
    Finish(SwitchEnd),
}

/// What the driver hands back to the session.
pub enum SwitchEvent {
    /// The picker returned this name.
    Picked(GitUserName),
    /// The picker was closed or failed; the text says why.
    PickerClosed(String),
    /// The last `git` invocation finished: its standard output, or its error.
    GitDone(Result<String, GatewayError>),
}

/// Where a switch stands.
pub enum SwitchPhase {
    /// Waiting for the picker.
    Choosing,
    /// `user.name` is being written; `email` comes next.
    WritingName { email: GitUserEmailAddress },
    /// `user.email` is being written.
    WritingEmail,
    /// `user.name` is being read back.
    ReadingName,
    /// `user.email` is being read back; `name_out` is what `user.name` gave.
    ReadingEmail { name_out: String },
    /// The switch has ended.
    Done,
}

/// One interactive switch: the catalog, the target scope and the phase. The
/// driver shows `choices`, then feeds each outcome to `step` and performs the
/// action that comes back, until it is `Finish`.
pub struct SwitchSession {
    pub mode: SwitchMode,
    pub users: ConfiguredGitUsers,
    pub phase: SwitchPhase,
}

pub open spec fn runs(a: SwitchAction, args: Seq<Seq<char>>) -> bool {
    a is RunGit && args_view(a->RunGit_0@) == args
}

pub open spec fn fails_with(a: SwitchAction, e: SwitchError) -> bool {
    a == SwitchAction::Finish(SwitchEnd::Failed(e))
}

impl SwitchSession {
    pub open spec fn wf(&self) -> bool {
        self.users.wf()
    }

    /// Builds the catalog from the loaded records and waits for a choice.
    pub fn start(cfg: LoadedConfiguration, mode: SwitchMode) -> (r: Result<SwitchSession, ConfigError>)
        ensures
            r is Ok <==> all_records_valid(cfg.users@),
            r is Ok ==> r->Ok_0.wf() && r->Ok_0.users@ == catalog_of(cfg.users@) && r->Ok_0.mode
                == mode && r->Ok_0.phase is Choosing,
            r is Err ==> exists|i: int|
                0 <= i < cfg.users@.len() && !record_is_valid(cfg.users@[i]) && (forall|j: int|
                    0 <= j < i ==> record_is_valid(#[trigger] cfg.users@[j])) && r->Err_0
                    == record_error(cfg.users@[i]),
    {
        let users = ConfiguredGitUsers::try_from(cfg)?;
        Ok(SwitchSession { mode, users, phase: SwitchPhase::Choosing })
    }

    /// The names to offer, sorted, each once.
    pub fn choices(&self) -> (r: Vec<GitUserName>)
        requires
            self.wf(),
        ensures
            r@.map_values(|n: GitUserName| n@) == self.users.names(),
    {
        self.users.enumerate()
    }

    /// Takes one event and says what to do next: write `user.name`, then
    /// `user.email`, then read both back and report. A closed picker ends the
    /// switch with nothing written; a failed `git` ends it at once, with nothing
    /// more run; an event out of order ends it as failed.
    pub fn step(&mut self, event: SwitchEvent) -> (a: SwitchAction)
        requires
            old(self).wf(),
        ensures
            final(self).wf(),
            final(self).mode == old(self).mode,
            final(self).users@ == old(self).users@,
            a is Finish <==> final(self).phase is Done,
            match (old(self).phase, event) {
                (SwitchPhase::Choosing, SwitchEvent::Picked(n)) => if old(self).users@.contains_key(n@) {
                    &&& runs(a, write_args_of(old(self).mode, "user.name"@, n@))
                    &&& final(self).phase is WritingName
                    &&& final(self).phase->WritingName_email@ == old(self).users@[n@].0
                } else {
                    a is Finish && a->Finish_0 is Failed && a->Finish_0->Failed_0 is UnknownIdentity
                        && a->Finish_0->Failed_0->UnknownIdentity_0@ == n@
                },
                (SwitchPhase::Choosing, SwitchEvent::PickerClosed(m)) => a
                    == SwitchAction::Finish(SwitchEnd::Cancelled(m)),
                (SwitchPhase::WritingName { email }, SwitchEvent::GitDone(Ok(_))) => {
                    &&& runs(a, write_args_of(old(self).mode, "user.email"@, email@))
                    &&& final(self).phase is WritingEmail
                },
                (SwitchPhase::WritingEmail, SwitchEvent::GitDone(Ok(_))) => {
                    &&& runs(a, read_args_of(old(self).mode, "user.name"@))
                    &&& final(self).phase is ReadingName
                },
                (SwitchPhase::ReadingName, SwitchEvent::GitDone(Ok(out))) => {
                    &&& runs(a, read_args_of(old(self).mode, "user.email"@))
                    &&& final(self).phase is ReadingEmail
                    &&& final(self).phase->ReadingEmail_name_out@ == out@
                },
                (SwitchPhase::ReadingEmail { name_out }, SwitchEvent::GitDone(Ok(out))) => {
                    &&& a is Finish && a->Finish_0 is Switched
                    &&& a->Finish_0->Switched_0@ == outcome_text(name_out@, out@, old(self).mode)
                },
                (SwitchPhase::WritingName { .. }, SwitchEvent::GitDone(Err(e))) => fails_with(
                    a,
                    SwitchError::Gateway(e),
                ),
                (SwitchPhase::WritingEmail, SwitchEvent::GitDone(Err(e))) => fails_with(
                    a,
                    SwitchError::Gateway(e),
                ),
                (SwitchPhase::ReadingName, SwitchEvent::GitDone(Err(e))) => fails_with(
                    a,
                    SwitchError::Gateway(e),
                ),
                (SwitchPhase::ReadingEmail { .. }, SwitchEvent::GitDone(Err(e))) => fails_with(
                    a,
                    SwitchError::Gateway(e),
                ),
                _ => fails_with(a, SwitchError::UnexpectedEvent),
            },
    {
        let mode = self.mode;
        let mut phase = SwitchPhase::Done;
        core::mem::swap(&mut phase, &mut self.phase);
        match (phase, event) {
            (SwitchPhase::Choosing, SwitchEvent::Picked(n)) => match self.users.lookup(&n) {
                Some(email) => {
                    let args = write_args(mode, "user.name", n.0.as_str());
                    self.phase = SwitchPhase::WritingName { email };
                    SwitchAction::RunGit(args)
                },
                None => SwitchAction::Finish(
                    SwitchEnd::Failed(SwitchError::UnknownIdentity(n.0)),
                ),
            },
            (SwitchPhase::Choosing, SwitchEvent::PickerClosed(m)) => SwitchAction::Finish(
                SwitchEnd::Cancelled(m),
            ),
            (SwitchPhase::WritingName { email }, SwitchEvent::GitDone(Ok(_))) => {
                let args = write_args(mode, "user.email", email.0.as_str());
                self.phase = SwitchPhase::WritingEmail;
                SwitchAction::RunGit(args)
            },
            (SwitchPhase::WritingEmail, SwitchEvent::GitDone(Ok(_))) => {
                self.phase = SwitchPhase::ReadingName;
                SwitchAction::RunGit(read_args(mode, "user.name"))
            },
            (SwitchPhase::ReadingName, SwitchEvent::GitDone(Ok(out))) => {
                self.phase = SwitchPhase::ReadingEmail { name_out: out };
                SwitchAction::RunGit(read_args(mode, "user.email"))
            },
            (SwitchPhase::ReadingEmail { name_out }, SwitchEvent::GitDone(Ok(out))) => {
                SwitchAction::Finish(
                    SwitchEnd::Switched(format_outcome(name_out.as_str(), out.as_str(), mode)),
                )
            },
            (SwitchPhase::WritingName { .. }, SwitchEvent::GitDone(Err(e)))
            | (SwitchPhase::WritingEmail, SwitchEvent::GitDone(Err(e)))
            | (SwitchPhase::ReadingName, SwitchEvent::GitDone(Err(e)))
            | (SwitchPhase::ReadingEmail { .. }, SwitchEvent::GitDone(Err(e))) => {
                SwitchAction::Finish(SwitchEnd::Failed(SwitchError::Gateway(e)))
            },
            _ => SwitchAction::Finish(SwitchEnd::Failed(SwitchError::UnexpectedEvent)),
        }
    }
}

} // verus!

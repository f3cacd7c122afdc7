//! Sidecar supervision: the launch, as a state machine whose caller performs
//! each step, the launch checks and the sidecar's environment, and the slot
//! that owns the running child so that it is terminated only once.
use vstd::prelude::*;
use vstd::string::*;

use crate::endpoint::{decimal_of, decimal_text, host_spec, FRONTEND_PORT};

verus! {

/// Why the sidecar could not be launched.
#[derive(PartialEq, Eq, Structural, Clone, Copy, Debug)]
pub enum LaunchErrorKind {
    /// The sidecar's assets, or the resource directory, are missing.
    ConfigurationMissing,
    /// The log or data directory could not be set up.
    FilesystemSetup,
    /// The child process could not be started.
    SpawnFailure,
}

/// A launch failure, with a message for the logs.
#[derive(Debug)]
pub struct LaunchError {
    pub kind: LaunchErrorKind,
    pub message: String,
}

/// The setup steps of a launch that touch the filesystem or start a process.
#[derive(PartialEq, Eq, Structural, Clone, Copy, Debug)]
pub enum SetupStep {
    LogDirectory,
    StdoutLog,
    StderrLog,
    Spawn,
}

/// The message for a missing sidecar directory.
pub open spec fn missing_root_message(candidate: Seq<char>) -> Seq<char> {
    "node server directory not found in resources ("@ + candidate + ")"@
}

/// The message for a missing entry file.
pub open spec fn missing_entry_message(entry: Seq<char>) -> Seq<char> {
    "node server entry not found at "@ + entry
}

/// `needle` occurs in `hay`.
pub open spec fn contains(hay: Seq<char>, needle: Seq<char>) -> bool {
    exists|i: int|
        0 <= i && i + needle.len() <= hay.len() && #[trigger] hay.subrange(i, i + needle.len())
            == needle
}

/// Checks the sidecar's asset directory. `resource_dir_found` says whether
/// the application's resource directory is known, `candidate` is the asset
/// directory within it, and `candidate_exists` whether it is there.
pub fn locate_server_root(resource_dir_found: bool, candidate: &str, candidate_exists: bool) -> (r:
    Result<(), LaunchError>)
    ensures
        r is Ok <==> resource_dir_found && candidate_exists,
        r is Err ==> r->Err_0.kind is ConfigurationMissing,
        !resource_dir_found ==> r is Err && r->Err_0.message@ == "resource directory unavailable"@,
        resource_dir_found && !candidate_exists ==> r is Err && r->Err_0.message@
            == missing_root_message(candidate@),
{
    if !resource_dir_found {
        return Err(
            LaunchError {
                kind: LaunchErrorKind::ConfigurationMissing,
                message: String::from_str("resource directory unavailable"),
            },
        );
    }
    if !candidate_exists {
        let mut m = String::from_str("node server directory not found in resources (");
        m.append(candidate);
        m.append(")");
        return Err(LaunchError { kind: LaunchErrorKind::ConfigurationMissing, message: m });
    }
    Ok(())
}

/// Checks that the sidecar's entry file exists; when it does not, the
/// failure is `ConfigurationMissing` and its message names the probed path.
pub fn check_entry(entry: &str, entry_exists: bool) -> (r: Result<(), LaunchError>)
    ensures
        r is Ok <==> entry_exists,
        r is Err ==> r->Err_0.kind is ConfigurationMissing
            && r->Err_0.message@ == missing_entry_message(entry@)
            && contains(r->Err_0.message@, entry@),
{
    if entry_exists {
        return Ok(());
    }
    let mut m = String::from_str("node server entry not found at ");
    m.append(entry);
    proof {
        let pre = "node server entry not found at "@;
        assert(m@.subrange(pre.len() as int, (pre.len() + entry@.len()) as int) =~= entry@);
    }
    Err(LaunchError { kind: LaunchErrorKind::ConfigurationMissing, message: m })
}

/// The message for a failed setup step.
pub open spec fn setup_message(step: SetupStep) -> Seq<char> {
    match step {
        SetupStep::LogDirectory => "failed to create log directory"@,
        SetupStep::StdoutLog => "failed to create stdout log"@,
        SetupStep::StderrLog => "failed to create stderr log"@,
        SetupStep::Spawn => "failed to spawn node server process"@,
    }
}

/// The failure for a setup step that did not succeed: a process that could
/// not be started is a `SpawnFailure`, every other step a `FilesystemSetup`.
pub fn setup_failure(step: SetupStep) -> (r: LaunchError)
    ensures
        r.kind == (if step is Spawn {
            LaunchErrorKind::SpawnFailure
        } else {
            LaunchErrorKind::FilesystemSetup
        }),
        r.message@ == setup_message(step),
{
    match step {
        SetupStep::LogDirectory => LaunchError {
            kind: LaunchErrorKind::FilesystemSetup,
            message: String::from_str("failed to create log directory"),
        },
        SetupStep::StdoutLog => LaunchError {
            kind: LaunchErrorKind::FilesystemSetup,
            message: String::from_str("failed to create stdout log"),
        },
        SetupStep::StderrLog => LaunchError {
            kind: LaunchErrorKind::FilesystemSetup,
            message: String::from_str("failed to create stderr log"),
        },
        SetupStep::Spawn => LaunchError {
            kind: LaunchErrorKind::SpawnFailure,
            message: String::from_str("failed to spawn node server process"),
        },
    }
}

/// The environment that the sidecar is started with, as name and value:
/// its data root, the host it binds and the port it listens on.
pub fn sidecar_environment(data_root: &str) -> (r: Vec<(String, String)>)
    ensures
        r@.len() == 3,
        r@[0].0@ == "PLUTODUCK_DATA_DIR__ROOT"@,
        r@[0].1@ == data_root@,
        r@[1].0@ == "HOSTNAME"@,
        r@[1].1@ == host_spec(),
        r@[2].0@ == "PORT"@,
        r@[2].1@ == decimal_of(FRONTEND_PORT as nat),
{
    let mut r: Vec<(String, String)> = Vec::new();
    r.push((String::from_str("PLUTODUCK_DATA_DIR__ROOT"), String::from_str(data_root)));
    r.push((String::from_str("HOSTNAME"), String::from_str("127.0.0.1")));
    r.push((String::from_str("PORT"), decimal_text(FRONTEND_PORT)));
    r
}

/// The names the sidecar's files and directories go by.
#[derive(Debug)]
pub struct SidecarLayout {
    /// The program that runs the sidecar.
    pub program: String,
    /// The entry file, within the sidecar's directory; also its one argument.
    pub entry_file: String,
    /// The sidecar's directory, within the resource directory.
    pub resource_subdir: String,
    /// The data root's directory, within the per-user data directory.
    pub data_dir: String,
    /// The directory of the fallback base, within the temporary directory.
    pub temp_fallback_dir: String,
    /// The log directory, within the data root.
    pub log_dir: String,
    pub stdout_log: String,
    pub stderr_log: String,
}

/// The sidecar's layout: `node server.js` run from
/// `dist/pluto-duck-frontend-server`, with data under `node-server` and logs
/// in `logs/node-server-stdout.log` and `logs/node-server-stderr.log`.
pub fn sidecar_layout() -> (r: SidecarLayout)
    ensures
        r.program@ == "node"@,
        r.entry_file@ == "server.js"@,
        r.resource_subdir@ == "dist/pluto-duck-frontend-server"@,
        r.data_dir@ == "node-server"@,
        r.temp_fallback_dir@ == "pluto_duck"@,
        r.log_dir@ == "logs"@,
        r.stdout_log@ == "node-server-stdout.log"@,
        r.stderr_log@ == "node-server-stderr.log"@,
{
    SidecarLayout {
        program: String::from_str("node"),
        entry_file: String::from_str("server.js"),
        resource_subdir: String::from_str("dist/pluto-duck-frontend-server"),
        data_dir: String::from_str("node-server"),
        temp_fallback_dir: String::from_str("pluto_duck"),
        log_dir: String::from_str("logs"),
        stdout_log: String::from_str("node-server-stdout.log"),
        stderr_log: String::from_str("node-server-stderr.log"),
    }
}

/// Where a launch stands.
#[derive(PartialEq, Eq, Structural, Clone, Copy, Debug)]
pub enum LaunchPhase {
    Idle,
    ResolvingRoot,
    CreatingLogDirectory,
    CreatingStdoutLog,
    CreatingStderrLog,
    CheckingEntry,
    Spawning,
    Probing,
    /// The sidecar runs and its probe is over.
    Launched,
    /// A debug build: the development tooling runs the server.
    Skipped,
    Failed,
}

/// What the caller observed after the last action.
pub enum LaunchEvent {
    Begin { debug: bool },
    RootResolved { resource_dir_found: bool, candidate: String, candidate_exists: bool },
    /// A directory or log file was created, or the child spawned, or not.
    StepDone { ok: bool },
    EntryChecked { entry: String, exists: bool },
    ProbeOver,
}

/// What the caller does next.
#[derive(Debug)]
pub enum LaunchAction {
    ResolveRoot,
    CreateLogDirectory,
    CreateStdoutLog,
    CreateStderrLog,
    CheckEntry,
    Spawn,
    /// Wait for the sidecar to accept connections.
    Probe,
    /// The launch is over and succeeded (or was not needed).
    Done,
    /// The launch is over and failed.
    Fail(LaunchError),
}

/// The phase that follows a step that succeeded or failed.
pub open spec fn after_step(ok: bool, next: LaunchPhase) -> LaunchPhase {
    if ok { next } else { LaunchPhase::Failed }
}

/// The phase that a launch moves to on an event; an event that does not
/// belong to the phase leaves it as it is.
pub open spec fn next_phase(phase: LaunchPhase, event: LaunchEvent) -> LaunchPhase {
    match (phase, event) {
        (LaunchPhase::Idle, LaunchEvent::Begin { debug }) => if debug {
            LaunchPhase::Skipped
        } else {
            LaunchPhase::ResolvingRoot
        },
        (
            LaunchPhase::ResolvingRoot,
            LaunchEvent::RootResolved { resource_dir_found, candidate_exists, .. },
        ) => after_step(resource_dir_found && candidate_exists, LaunchPhase::CreatingLogDirectory),
        (LaunchPhase::CreatingLogDirectory, LaunchEvent::StepDone { ok }) => after_step(
            ok,
            LaunchPhase::CreatingStdoutLog,
        ),
        (LaunchPhase::CreatingStdoutLog, LaunchEvent::StepDone { ok }) => after_step(
            ok,
            LaunchPhase::CreatingStderrLog,
        ),
        (LaunchPhase::CreatingStderrLog, LaunchEvent::StepDone { ok }) => after_step(
            ok,
            LaunchPhase::CheckingEntry,
        ),
        (LaunchPhase::CheckingEntry, LaunchEvent::EntryChecked { exists, .. }) => after_step(
            exists,
            LaunchPhase::Spawning,
        ),
        (LaunchPhase::Spawning, LaunchEvent::StepDone { ok }) => after_step(
            ok,
            LaunchPhase::Probing,
        ),
        (LaunchPhase::Probing, LaunchEvent::ProbeOver) => LaunchPhase::Launched,
        _ => phase,
    }
}

/// The action that a phase asks for, when no failure is being reported.
pub open spec fn action_matches(phase: LaunchPhase, action: LaunchAction) -> bool {
    match phase {
        LaunchPhase::Idle => action is Done,
        LaunchPhase::ResolvingRoot => action is ResolveRoot,
        LaunchPhase::CreatingLogDirectory => action is CreateLogDirectory,
        LaunchPhase::CreatingStdoutLog => action is CreateStdoutLog,
        LaunchPhase::CreatingStderrLog => action is CreateStderrLog,
        LaunchPhase::CheckingEntry => action is CheckEntry,
        LaunchPhase::Spawning => action is Spawn,
        LaunchPhase::Probing => action is Probe,
        LaunchPhase::Launched | LaunchPhase::Skipped | LaunchPhase::Failed => action is Done,
    }
}

/// The action for a phase that succeeded into `next`.
fn action_for(next: LaunchPhase) -> (r: LaunchAction)
    ensures
        action_matches(next, r),
{
    match next {
        LaunchPhase::ResolvingRoot => LaunchAction::ResolveRoot,
        LaunchPhase::CreatingLogDirectory => LaunchAction::CreateLogDirectory,
        LaunchPhase::CreatingStdoutLog => LaunchAction::CreateStdoutLog,
        LaunchPhase::CreatingStderrLog => LaunchAction::CreateStderrLog,
        LaunchPhase::CheckingEntry => LaunchAction::CheckEntry,
        LaunchPhase::Spawning => LaunchAction::Spawn,
        LaunchPhase::Probing => LaunchAction::Probe,
        _ => LaunchAction::Done,
    }
}

/// The failure that a phase and event end a launch with, as its kind and
/// message, or `None` where the launch does not fail there.
pub open spec fn failure_of(phase: LaunchPhase, event: LaunchEvent) -> Option<
    (LaunchErrorKind, Seq<char>),
> {
    match (phase, event) {
        (
            LaunchPhase::ResolvingRoot,
            LaunchEvent::RootResolved { resource_dir_found, candidate, candidate_exists },
        ) => if !resource_dir_found {
            Some((LaunchErrorKind::ConfigurationMissing, "resource directory unavailable"@))
        } else if !candidate_exists {
            Some((LaunchErrorKind::ConfigurationMissing, missing_root_message(candidate@)))
        } else {
            None
        },
        (LaunchPhase::CreatingLogDirectory, LaunchEvent::StepDone { ok }) => if ok {
            None
        } else {
            Some((LaunchErrorKind::FilesystemSetup, setup_message(SetupStep::LogDirectory)))
        },
        (LaunchPhase::CreatingStdoutLog, LaunchEvent::StepDone { ok }) => if ok {
            None
        } else {
            Some((LaunchErrorKind::FilesystemSetup, setup_message(SetupStep::StdoutLog)))
        },
        (LaunchPhase::CreatingStderrLog, LaunchEvent::StepDone { ok }) => if ok {
            None
        } else {
            Some((LaunchErrorKind::FilesystemSetup, setup_message(SetupStep::StderrLog)))
        },
        (LaunchPhase::CheckingEntry, LaunchEvent::EntryChecked { entry, exists }) => if exists {
            None
        } else {
            Some((LaunchErrorKind::ConfigurationMissing, missing_entry_message(entry@)))
        },
        (LaunchPhase::Spawning, LaunchEvent::StepDone { ok }) => if ok {
            None
        } else {
            Some((LaunchErrorKind::SpawnFailure, setup_message(SetupStep::Spawn)))
        },
        _ => None,
    }
}

/// `action` reports the failure `f`.
pub open spec fn fails_with(action: LaunchAction, f: (LaunchErrorKind, Seq<char>)) -> bool {
    match action {
        LaunchAction::Fail(e) => e.kind == f.0 && e.message@ == f.1,
        _ => false,
    }
}

/// One step of a launch: from the phase and what the caller observed, the
/// next phase and what to do. The steps run in order: resolve the sidecar's
/// directory, create the log directory and the two log files, check the
/// entry file, spawn, probe. The first step that fails ends the launch with
/// its failure; an event that does not belong to the phase changes nothing
/// and asks for the phase's action again.
pub fn launch_step(phase: LaunchPhase, event: LaunchEvent) -> (r: (LaunchPhase, LaunchAction))
    ensures
        r.0 == next_phase(phase, event),
        (failure_of(phase, event) is Some) == (r.0 == LaunchPhase::Failed && phase
            != LaunchPhase::Failed),
        failure_of(phase, event) is Some ==> fails_with(r.1, failure_of(phase, event)->Some_0),
        failure_of(phase, event) is None ==> action_matches(r.0, r.1),
{
    match (phase, event) {
        (LaunchPhase::Idle, LaunchEvent::Begin { debug }) => {
            if debug {
                (LaunchPhase::Skipped, LaunchAction::Done)
            } else {
                (LaunchPhase::ResolvingRoot, LaunchAction::ResolveRoot)
            }
        },
        (
            LaunchPhase::ResolvingRoot,
            LaunchEvent::RootResolved { resource_dir_found, candidate, candidate_exists },
        ) => match locate_server_root(resource_dir_found, candidate.as_str(), candidate_exists) {
            Ok(()) => (LaunchPhase::CreatingLogDirectory, LaunchAction::CreateLogDirectory),
            Err(e) => (LaunchPhase::Failed, LaunchAction::Fail(e)),
        },
        (LaunchPhase::CreatingLogDirectory, LaunchEvent::StepDone { ok }) => {
            if ok {
                (LaunchPhase::CreatingStdoutLog, LaunchAction::CreateStdoutLog)
            } else {
                (LaunchPhase::Failed, LaunchAction::Fail(setup_failure(SetupStep::LogDirectory)))
            }
        },
        (LaunchPhase::CreatingStdoutLog, LaunchEvent::StepDone { ok }) => {
            if ok {
                (LaunchPhase::CreatingStderrLog, LaunchAction::CreateStderrLog)
            } else {
                (LaunchPhase::Failed, LaunchAction::Fail(setup_failure(SetupStep::StdoutLog)))
            }
        },
        (LaunchPhase::CreatingStderrLog, LaunchEvent::StepDone { ok }) => {
            if ok {
                (LaunchPhase::CheckingEntry, LaunchAction::CheckEntry)
            } else {
                (LaunchPhase::Failed, LaunchAction::Fail(setup_failure(SetupStep::StderrLog)))
            }
        },
        (LaunchPhase::CheckingEntry, LaunchEvent::EntryChecked { entry, exists }) => {
            match check_entry(entry.as_str(), exists) {
                Ok(()) => (LaunchPhase::Spawning, LaunchAction::Spawn),
                Err(e) => (LaunchPhase::Failed, LaunchAction::Fail(e)),
            }
        },
        (LaunchPhase::Spawning, LaunchEvent::StepDone { ok }) => {
            if ok {
                (LaunchPhase::Probing, LaunchAction::Probe)
            } else {
                (LaunchPhase::Failed, LaunchAction::Fail(setup_failure(SetupStep::Spawn)))
            }
        },
        (LaunchPhase::Probing, LaunchEvent::ProbeOver) => (LaunchPhase::Launched, LaunchAction::Done),
        (p, _) => (p, action_for(p)),
    }
}

/// A launch that finds the entry file missing fails with a message that
/// names the path it probed.
pub proof fn lemma_missing_entry_named(entry: String)
    ensures
        failure_of(
            LaunchPhase::CheckingEntry,
            LaunchEvent::EntryChecked { entry, exists: false },
        ) matches Some(f) && f.0 == LaunchErrorKind::ConfigurationMissing && contains(f.1, entry@),
{
    let pre = "node server entry not found at "@;
    let m = missing_entry_message(entry@);
    assert(m.subrange(pre.len() as int, (pre.len() + entry@.len()) as int) =~= entry@);
}

/// A launch reaches the probe only through a spawn that succeeded, and a
/// spawn only through an entry file that exists: the phase after `Probing`
/// and `Spawning` comes from no other phase and event.
pub proof fn lemma_launch_order(phase: LaunchPhase, event: LaunchEvent)
    ensures
        next_phase(phase, event) == LaunchPhase::Probing && phase != LaunchPhase::Probing
            ==> phase == LaunchPhase::Spawning && event == (LaunchEvent::StepDone { ok: true }),
        next_phase(phase, event) == LaunchPhase::Spawning && phase != LaunchPhase::Spawning
            ==> phase == LaunchPhase::CheckingEntry && (event is EntryChecked),
        next_phase(phase, event) == LaunchPhase::Spawning && phase != LaunchPhase::Spawning
            ==> failure_of(phase, event) is None,
        next_phase(phase, event) == LaunchPhase::Launched && phase != LaunchPhase::Launched
            ==> phase == LaunchPhase::Probing,
{
}

/// What taking from a slot gives: its content, and the slot left empty.
pub open spec fn take_spec<T>(held: Option<T>) -> (Option<T>, Option<T>) {
    (held, None)
}

/// How many of `n` successive takes from a slot holding `held` hand out a
/// child.
pub open spec fn handed_out<T>(held: Option<T>, n: nat) -> nat
    decreases n,
{
    if n == 0 {
        0
    } else {
        let (out, rest) = take_spec(held);
        (if out is Some { 1nat } else { 0nat }) + handed_out(rest, (n - 1) as nat)
    }
}

/// The owner of the running sidecar. Every teardown path takes the child
/// out of the slot and terminates what it got; a path that finds the slot
/// empty does nothing.
pub struct ServerSlot<T> {
    held: Option<T>,
}

impl<T> ServerSlot<T> {
    /// What the slot holds.
    pub closed spec fn content(&self) -> Option<T> {
        self.held
    }

    /// A slot that holds `child`.
    pub fn new(child: T) -> (r: Self)
        ensures
            r.content() == Some(child),
    {
        ServerSlot { held: Some(child) }
    }

    /// Takes the child out, for termination; the slot is empty afterwards.
    pub fn take_for_termination(&mut self) -> (r: Option<T>)
        ensures
            (r, final(self).content()) == take_spec(old(self).content()),
    {
        self.held.take()
    }

    /// Whether the slot still holds a child.
    pub fn is_held(&self) -> (r: bool)
        ensures
            r == self.content() is Some,
    {
        self.held.is_some()
    }
}

/// Termination happens once: whatever number of teardown paths run, and in
/// whatever order, of the takes from a slot that held a child exactly one
/// hands it out, and from an empty slot none does.
pub proof fn lemma_terminated_once<T>(held: Option<T>, n: nat)
    requires
        n >= 1,
    ensures
        handed_out(held, n) == (if held is Some { 1nat } else { 0nat }),
    decreases n,
{
    if n > 1 {
        lemma_none_hands_out_nothing::<T>((n - 1) as nat);
    } else {
        assert(handed_out::<T>(None, 0) == 0);
    }
}

proof fn lemma_none_hands_out_nothing<T>(n: nat)
    ensures
        handed_out::<T>(None, n) == 0,
    decreases n,
{
    if n > 0 {
        lemma_none_hands_out_nothing::<T>((n - 1) as nat);
    }
}

} // verus!

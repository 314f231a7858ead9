//! The lifecycle of the server within one process: that at most one server
//! is admitted unless the check is switched off, that the lifecycle hook runs
//! at most once, and what is done with the socket file when the process ends.

use crate::error::InitError;
use vstd::prelude::*;

verus! {

/// The flags that a process keeps about its servers. Both are set once and
/// never reset.
#[derive(Debug)]
pub struct ServerRegistry {
    server_running: bool,
    handlers_registered: bool,
}

/// What admitting a server does: the flags afterwards (a server is running;
/// the hook is registered), and the verdict. A server is refused with
/// `ServerAlreadyRunning` if one was running already and the check is not
/// disabled. One that is admitted is told to run the lifecycle hook if no
/// server of this process has run it before.
pub open spec fn register_spec(
    server_running: bool,
    handlers_registered: bool,
    disable_single_server_check: bool,
) -> ((bool, bool), Result<bool, InitError>) {
    if server_running && !disable_single_server_check {
        ((true, handlers_registered), Err(InitError::ServerAlreadyRunning))
    } else {
        ((true, true), Ok(!handlers_registered))
    }
}

/// Admits or refuses a server whose listener is bound, given the flags of
/// the process: the flags afterwards, and the verdict. This is the whole
/// step, so a process may keep its flags wherever one step on them is
/// atomic.
pub fn register_flags(
    server_running: bool,
    handlers_registered: bool,
    disable_single_server_check: bool,
) -> (outcome: ((bool, bool), Result<bool, InitError>))
    ensures
        outcome == register_spec(server_running, handlers_registered, disable_single_server_check),
{
    if server_running && !disable_single_server_check {
        ((true, handlers_registered), Err(InitError::ServerAlreadyRunning))
    } else {
        ((true, true), Ok(!handlers_registered))
    }
}

impl ServerRegistry {
    /// A server has been admitted in this process.
    pub closed spec fn server_running(&self) -> bool {
        self.server_running
    }

    /// The lifecycle hook has been run in this process.
    pub closed spec fn handlers_registered(&self) -> bool {
        self.handlers_registered
    }

    /// The registry of a process that has created no server yet.
    pub fn new() -> (registry: Self)
        ensures
            !registry.server_running(),
            !registry.handlers_registered(),
    {
        ServerRegistry { server_running: false, handlers_registered: false }
    }

    /// The registry of a process with these flags.
    pub fn from_flags(server_running: bool, handlers_registered: bool) -> (registry: Self)
        ensures
            registry.server_running() == server_running,
            registry.handlers_registered() == handlers_registered,
    {
        ServerRegistry { server_running, handlers_registered }
    }

    /// The flags of the registry: whether a server is running, and whether
    /// the lifecycle hook has run.
    pub fn flags(&self) -> (flags: (bool, bool))
        ensures
            flags == (self.server_running(), self.handlers_registered()),
    {
        (self.server_running, self.handlers_registered)
    }

    /// Admits or refuses a server whose listener is bound. `Ok(true)` tells
    /// the caller to run the lifecycle hook, `Ok(false)` that it has run.
    pub fn register(&mut self, disable_single_server_check: bool) -> (verdict: Result<
        bool,
        InitError,
    >)
        ensures
            ((final(self).server_running(), final(self).handlers_registered()), verdict)
                == register_spec(
                old(self).server_running(),
                old(self).handlers_registered(),
                disable_single_server_check,
            ),
    {
        let (flags, verdict) = register_flags(
            self.server_running,
            self.handlers_registered,
            disable_single_server_check,
        );
        self.server_running = flags.0;
        self.handlers_registered = flags.1;
        verdict
    }
}

/// Of two servers that one process creates one after the other, the second
/// is refused with `ServerAlreadyRunning` unless it disabled the check; with
/// the check disabled for both, both are admitted. The first server of a
/// process is always admitted. The flags, once set, stay set, and at most
/// one of the two is told to run the lifecycle hook.
pub proof fn lemma_single_server(
    server_running: bool,
    handlers_registered: bool,
    first_disables: bool,
    second_disables: bool,
)
    ensures
        ({
            let (mid, first) = register_spec(server_running, handlers_registered, first_disables);
            let (end, second) = register_spec(mid.0, mid.1, second_disables);
            &&& !second_disables ==> second == Err::<bool, InitError>(
                InitError::ServerAlreadyRunning,
            )
            &&& first_disables && second_disables ==> first is Ok && second is Ok
            &&& !server_running ==> first is Ok
            &&& mid.0 && end.0
            &&& handlers_registered ==> mid.1
            &&& mid.1 ==> end.1
            &&& !(first == Ok::<bool, InitError>(true) && second == Ok::<bool, InitError>(true))
        }),
{
}

/// What is left to do once it is known whether the socket file exists.
#[derive(Debug)]
pub enum RemovalStep {
    /// The file is there: remove it and report how that went.
    Remove,
    /// Nothing more to do: `Ok(false)` if there was no file, the error if
    /// the question could not be answered.
    Done(Result<bool, std::io::Error>),
}

/// The step after the probe: a file that is there is to be removed; one that
/// is not there is not touched, and that is no error.
pub open spec fn removal_step_spec(present: Result<bool, std::io::Error>) -> RemovalStep {
    match present {
        Ok(true) => RemovalStep::Remove,
        Ok(false) => RemovalStep::Done(Ok(false)),
        Err(e) => RemovalStep::Done(Err(e)),
    }
}

/// The result of a removal that was tried: `Ok(true)` if the file is gone.
pub open spec fn removed_spec(removed: Result<(), std::io::Error>) -> Result<
    bool,
    std::io::Error,
> {
    match removed {
        Ok(_) => Ok(true),
        Err(e) => Err(e),
    }
}

/// Trys to cleanup the socket file if it is there: the step after the probe.
pub fn remove_socket_file(present: Result<bool, std::io::Error>) -> (step: RemovalStep)
    ensures
        step == removal_step_spec(present),
{
    match present {
        Ok(true) => RemovalStep::Remove,
        Ok(false) => RemovalStep::Done(Ok(false)),
        Err(e) => RemovalStep::Done(Err(e)),
    }
}

/// The result of the removal: `Ok(true)` if the socket was sucessfully
/// removed, the error if the removal failed.
pub fn socket_file_removed(removed: Result<(), std::io::Error>) -> (done: Result<
    bool,
    std::io::Error,
>)
    ensures
        done == removed_spec(removed),
{
    match removed {
        Ok(_) => Ok(true),
        Err(e) => Err(e),
    }
}

/// How a cleanup ended. None of these is an error to the caller.
#[derive(Debug)]
pub enum CleanupOutcome {
    /// The socket file was there and is removed.
    Removed,
    /// There was no socket file.
    NothingToRemove,
    /// The socket file may still be there. This is to be logged, and no more.
    Failed(std::io::Error),
}

/// What a removal amounts to for a cleanup.
pub open spec fn cleanup_spec(removal: Result<bool, std::io::Error>) -> CleanupOutcome {
    match removal {
        Ok(true) => CleanupOutcome::Removed,
        Ok(false) => CleanupOutcome::NothingToRemove,
        Err(e) => CleanupOutcome::Failed(e),
    }
}

/// Tries to clean up a given file: what the attempt amounts to. A failure is
/// handed back to be logged and is never escalated.
pub fn cleanup(removal: Result<bool, std::io::Error>) -> (outcome: CleanupOutcome)
    ensures
        outcome == cleanup_spec(removal),
{
    match removal {
        Ok(true) => CleanupOutcome::Removed,
        Ok(false) => CleanupOutcome::NothingToRemove,
        Err(e) => CleanupOutcome::Failed(e),
    }
}

/// How a cleanup ends, given what the probe for the socket file and the
/// removal of the file give. The removal counts only where it is tried.
pub open spec fn cleanup_run(
    probe: Result<bool, std::io::Error>,
    removal: Result<(), std::io::Error>,
) -> CleanupOutcome {
    match removal_step_spec(probe) {
        RemovalStep::Remove => cleanup_spec(removed_spec(removal)),
        RemovalStep::Done(done) => cleanup_spec(done),
    }
}

/// A cleanup where there is no socket file tries no removal and ends with
/// `NothingToRemove`, which is no failure; so does every further one, as long
/// as no file is there. A cleanup that finds the file and removes it ends
/// with `Removed`, and a failure of either step ends it with `Failed` and
/// goes no further than that.
pub proof fn lemma_cleanup_idempotent(
    probe: Result<bool, std::io::Error>,
    removal: Result<(), std::io::Error>,
)
    ensures
        removal_step_spec(Ok(false)) == RemovalStep::Done(Ok(false)),
        cleanup_run(Ok(false), removal) == CleanupOutcome::NothingToRemove,
        cleanup_run(Ok(true), Ok(())) == CleanupOutcome::Removed,
        cleanup_run(probe, removal) is Failed <==> probe is Err || (probe == Ok::<
            bool,
            std::io::Error,
        >(true) && removal is Err),
{
}

/// One thing to do when the process is about to end before its server was
/// dropped.
#[derive(Debug, Clone, Copy, PartialEq, Eq, Structural)]
pub enum TerminationAction {
    /// Remove the socket file.
    Cleanup,
    /// Go on with what a panic does by default.
    DefaultPanicHook,
    /// Give the signal its default disposition again.
    RestoreDefault(i32),
    /// Deliver the signal to this process again.
    Raise(i32),
    /// End the process with this status.
    Exit(i32),
}

/// What to do, in this order, on a signal that asks the process to end.
pub open spec fn signal_plan(signal: i32) -> Seq<TerminationAction> {
    seq![
        TerminationAction::Cleanup,
        TerminationAction::RestoreDefault(signal),
        TerminationAction::Raise(signal),
        TerminationAction::Exit(1),
    ]
}

/// What to do, in this order, when the process panics.
pub open spec fn panic_plan() -> Seq<TerminationAction> {
    seq![TerminationAction::Cleanup, TerminationAction::DefaultPanicHook]
}

/// Handles os signals: what to do, in this order, on a signal that asks the
/// process to end. The socket file goes first; the signal is then delivered
/// again with its default disposition, and the process exits with status 1
/// should that not have ended it.
pub fn handle_os_signals(signal: i32) -> (plan: Vec<TerminationAction>)
    ensures
        plan@ == signal_plan(signal),
{
    let mut plan: Vec<TerminationAction> = Vec::new();
    plan.push(TerminationAction::Cleanup);
    plan.push(TerminationAction::RestoreDefault(signal));
    plan.push(TerminationAction::Raise(signal));
    plan.push(TerminationAction::Exit(1));
    assert(plan@ =~= signal_plan(signal));
    plan
}

/// Handles a panic: what to do, in this order, when the process panics. The
/// socket file goes first; the panic then takes its default course.
pub fn handle_panic() -> (plan: Vec<TerminationAction>)
    ensures
        plan@ == panic_plan(),
{
    let mut plan: Vec<TerminationAction> = Vec::new();
    plan.push(TerminationAction::Cleanup);
    plan.push(TerminationAction::DefaultPanicHook);
    assert(plan@ =~= panic_plan());
    plan
}

/// What to do, in this order, when a server is dropped. The listener takes
/// its socket down itself; what may be left is the file of a socket whose
/// address is a path, and that is removed.
pub open spec fn drop_plan(path_address: bool) -> Seq<TerminationAction> {
    if path_address {
        seq![TerminationAction::Cleanup]
    } else {
        Seq::empty()
    }
}

/// Handles the drop of a server: what to do, in this order, once the server
/// is dropped, given whether the address of its socket is a path.
pub fn handle_drop(path_address: bool) -> (plan: Vec<TerminationAction>)
    ensures
        plan@ == drop_plan(path_address),
{
    let mut plan: Vec<TerminationAction> = Vec::new();
    if path_address {
        plan.push(TerminationAction::Cleanup);
        assert(plan@ =~= drop_plan(path_address));
    }
    plan
}

/// However the process comes to its end, the socket file is removed before
/// anything else is done, and once; and a signal is delivered again only
/// after its default disposition is back.
pub proof fn lemma_cleanup_comes_first(signal: i32)
    ensures
        signal_plan(signal)[0] == TerminationAction::Cleanup,
        panic_plan()[0] == TerminationAction::Cleanup,
        forall|i: int|
            1 <= i < signal_plan(signal).len() ==> signal_plan(signal)[i]
                != TerminationAction::Cleanup,
        forall|i: int|
            1 <= i < panic_plan().len() ==> panic_plan()[i] != TerminationAction::Cleanup,
        signal_plan(signal).index_of(TerminationAction::RestoreDefault(signal))
            < signal_plan(signal).index_of(TerminationAction::Raise(signal)),
{
    let plan = signal_plan(signal);
    assert(plan[1] == TerminationAction::RestoreDefault(signal));
    assert(plan[2] == TerminationAction::Raise(signal));
    let restore = plan.index_of(TerminationAction::RestoreDefault(signal));
    let raise = plan.index_of(TerminationAction::Raise(signal));
    assert(plan.contains(TerminationAction::RestoreDefault(signal)));
    assert(plan.contains(TerminationAction::Raise(signal)));
    assert(restore == 1) by {
        assert(0 <= restore < 4 && plan[restore] == TerminationAction::RestoreDefault(signal));
    }
    assert(raise == 2) by {
        assert(0 <= raise < 4 && plan[raise] == TerminationAction::Raise(signal));
    }
}

} // verus!

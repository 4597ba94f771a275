//! Waiting for activity: the IDLE wait with its worker, the polling
//! fallback, and the interrupt that ends either.
//!
//! The caller owns the blocking parts: the worker that holds the IDLE
//! command open, and the timed wait. Each wake-up is reported here, and the
//! answer says whether to wait again, to poll, or to return.

use crate::connection::{ConnectPlan, SetupStep};
use crate::select::SelectStep;
use crate::state::{Imap, ImapModel, Mailbox};
use vstd::prelude::*;

verus! {

/// Seconds after which an IDLE command is renewed: 23 minutes, clearly below
/// the limit of about 28 minutes that most servers set.
pub const IDLE_KEEPALIVE_SECS: u64 = 23 * 60;

/// Seconds between two polls while the polling wait is young.
pub const FAKE_IDLE_SHORT_SECS: u64 = 5;

/// Seconds between two polls later on, and after a failed reconnect.
pub const FAKE_IDLE_LONG_SECS: u64 = 60;

/// Seconds for which a polling wait counts as young: 3 minutes.
pub const FAKE_IDLE_EAGER_SECS: u64 = 3 * 60;

/// Answer of `idle` and of the steps that follow it.
#[derive(Clone, Copy, Debug, PartialEq, Eq, Structural)]
pub enum IdleStep {
    /// IDLE cannot be used now: poll instead.
    FakeIdle,
    /// Open a session as the plan says, hand the outcome to
    /// `setup_handle_finish`, then call `idle_after_setup`.
    Setup(ConnectPlan),
    /// Send SELECT for the watch folder (after a CLOSE, with
    /// `expunge_first`), then call `idle_selected`.
    Select { expunge_first: bool },
    /// Start the worker and wait.
    Spawn,
}

/// What one round of the worker's IDLE command gave.
#[derive(Clone, Copy, Debug, PartialEq, Eq, Structural)]
pub enum KeepaliveOutcome {
    /// The IDLE command could not be started.
    StartFailed,
    /// The server pushed data.
    Data,
    /// The keepalive time passed without data.
    Elapsed,
    /// The wait ended with an error.
    WaitFailed,
}

/// Kinds of errors that an IDLE wait can end with.
#[derive(Clone, Copy, Debug, PartialEq, Eq, Structural)]
pub enum IdleError {
    Io,
    ConnectionLost,
    Bad,
    Other,
}

/// What the worker reports to the waiting side.
#[derive(Clone, Copy, Debug, PartialEq, Eq, Structural)]
pub enum WorkerResult {
    Data,
    Error(IdleError),
}

/// What the worker does after one round.
#[derive(Clone, Copy, Debug, PartialEq, Eq, Structural)]
pub enum WorkerStep {
    /// Issue IDLE again.
    Again,
    /// Report the result, set the watch flag, wake the waiting side, end.
    Finish(WorkerResult),
}

/// How a wake-up of the IDLE wait ends.
#[derive(Clone, Copy, Debug, PartialEq, Eq, Structural)]
pub enum IdleWake {
    /// Nothing happened yet: wait (again).
    Wait,
    /// The server pushed data: return, so that the caller fetches.
    Data,
    /// The transport is broken: the session was dropped and a reconnect is
    /// due. With `teardown` the caller shuts down what it holds.
    Reconnect { teardown: bool },
    /// The worker ended with an error that asks for nothing.
    Unknown,
    /// Woken from outside while the worker is still waiting: abandon the
    /// worker and return.
    Interrupted,
}

/// How a wake-up of the polling wait ends.
#[derive(Clone, Copy, Debug, PartialEq, Eq, Structural)]
pub enum FakeWake {
    /// Woken for no reason: wait on.
    Wait,
    /// Woken from outside: return.
    Return,
    /// The interval has passed: poll.
    Poll,
}

/// What a poll consists of.
#[derive(Clone, Copy, Debug, PartialEq, Eq, Structural)]
pub enum FakePoll {
    /// Not connected: try to connect with the configured parameters.
    Reconnect,
    /// Connected: fetch once from the watch folder.
    Fetch,
    /// Connected, but no folder is watched: wait on.
    Sleep,
}

/// Progress of one polling wait.
#[derive(Clone, Copy, Debug, PartialEq, Eq, Structural)]
pub struct FakeIdle {
    /// Set once a reconnect has failed: from then on the long interval is
    /// used.
    pub wait_long: bool,
}

/// Seconds to wait before the next poll: the short interval while the wait
/// is younger than three minutes and no reconnect has failed, the long one
/// otherwise.
pub open spec fn poll_interval(elapsed_secs: u64, wait_long: bool) -> u64 {
    if elapsed_secs < FAKE_IDLE_EAGER_SECS && !wait_long {
        FAKE_IDLE_SHORT_SECS
    } else {
        FAKE_IDLE_LONG_SECS
    }
}

/// What the worker does after a round that gave `outcome`.
pub open spec fn worker_step(outcome: KeepaliveOutcome) -> WorkerStep {
    match outcome {
        KeepaliveOutcome::StartFailed => WorkerStep::Finish(WorkerResult::Error(IdleError::Bad)),
        KeepaliveOutcome::Data => WorkerStep::Finish(WorkerResult::Data),
        KeepaliveOutcome::Elapsed => WorkerStep::Again,
        KeepaliveOutcome::WaitFailed => WorkerStep::Finish(WorkerResult::Error(IdleError::Bad)),
    }
}

/// Whether an error means that the transport is broken.
pub open spec fn breaks_transport(error: IdleError) -> bool {
    error != IdleError::Other
}

impl ImapModel {
    /// The watch flag set.
    pub open spec fn interrupt(self) -> ImapModel {
        ImapModel { watch: true, ..self }
    }

    /// The watch folder selected, as far as that goes without a command.
    pub open spec fn idle_select(self) -> (ImapModel, IdleStep) {
        match self.config.watch_folder {
            Some(folder) => (
                self.select(folder).0,
                match self.select(folder).1 {
                    SelectStep::Done(true) => IdleStep::Spawn,
                    SelectStep::Done(false) => IdleStep::FakeIdle,
                    SelectStep::Select { expunge_first } => IdleStep::Select { expunge_first },
                },
            ),
            None => (self, IdleStep::Spawn),
        }
    }

    /// First step of an IDLE wait.
    pub open spec fn idle(self) -> (ImapModel, IdleStep) {
        if !self.config.can_idle {
            (self, IdleStep::FakeIdle)
        } else {
            match self.setup().1 {
                SetupStep::Open(plan) => (self.setup().0, IdleStep::Setup(plan)),
                _ => self.setup().0.idle_select(),
            }
        }
    }

    /// The IDLE wait after the server's answer to SELECT.
    pub open spec fn idle_selected(self, reply: Option<Mailbox>) -> (ImapModel, IdleStep) {
        match self.config.watch_folder {
            Some(folder) => (
                self.selected(folder, reply).0,
                if reply is Some {
                    IdleStep::Spawn
                } else {
                    IdleStep::FakeIdle
                },
            ),
            None => (self, IdleStep::Spawn),
        }
    }

    /// What a worker's result does, with the watch flag cleared.
    pub open spec fn idle_result(self, result: WorkerResult) -> (ImapModel, IdleWake) {
        match result {
            WorkerResult::Data => (ImapModel { watch: false, ..self }, IdleWake::Data),
            WorkerResult::Error(error) => if breaks_transport(error) {
                (
                    ImapModel { watch: false, should_reconnect: true, ..self.unsetup() },
                    IdleWake::Reconnect { teardown: self.session_open },
                )
            } else {
                (ImapModel { watch: false, ..self }, IdleWake::Unknown)
            },
        }
    }

    /// A look at the worker before waiting.
    pub open spec fn idle_poll(self, worker: Option<WorkerResult>) -> (ImapModel, IdleWake) {
        match worker {
            Some(result) => self.idle_result(result),
            None => (self, IdleWake::Wait),
        }
    }

    /// A wake-up of the IDLE wait.
    pub open spec fn idle_woken(self, worker: Option<WorkerResult>) -> (ImapModel, IdleWake) {
        if self.watch {
            match worker {
                Some(result) => self.idle_result(result),
                None => (ImapModel { watch: false, ..self }, IdleWake::Interrupted),
            }
        } else {
            self.idle_poll(worker)
        }
    }

    /// A wake-up of the polling wait.
    pub open spec fn fake_idle_woken(self, timed_out: bool) -> (ImapModel, FakeWake) {
        if self.watch {
            (ImapModel { watch: false, ..self }, FakeWake::Return)
        } else if timed_out {
            (self, FakeWake::Poll)
        } else {
            (self, FakeWake::Wait)
        }
    }

    /// What a poll consists of.
    pub open spec fn fake_idle_poll(self) -> FakePoll {
        if !self.connected {
            FakePoll::Reconnect
        } else if self.config.watch_folder is Some {
            FakePoll::Fetch
        } else {
            FakePoll::Sleep
        }
    }
}

/// Decides what the worker does after one round of IDLE. Data ends it, an
/// elapsed keepalive renews the command, and every failure is reported as a
/// broken command.
pub fn idle_worker_step(outcome: KeepaliveOutcome) -> (step: WorkerStep)
    ensures
        step == worker_step(outcome),
{
    match outcome {
        KeepaliveOutcome::StartFailed => WorkerStep::Finish(WorkerResult::Error(IdleError::Bad)),
        KeepaliveOutcome::Data => WorkerStep::Finish(WorkerResult::Data),
        KeepaliveOutcome::Elapsed => WorkerStep::Again,
        KeepaliveOutcome::WaitFailed => WorkerStep::Finish(WorkerResult::Error(IdleError::Bad)),
    }
}

impl FakeIdle {
    /// A polling wait that begins now.
    pub fn new() -> (r: FakeIdle)
        ensures
            !r.wait_long,
    {
        FakeIdle { wait_long: false }
    }

    /// Seconds to wait before the next poll, `elapsed_secs` whole seconds
    /// after the wait began.
    pub fn interval(&self, elapsed_secs: u64) -> (secs: u64)
        ensures
            secs == poll_interval(elapsed_secs, self.wait_long),
            secs == 5 || secs == 60,
            secs == 5 <==> elapsed_secs < 180 && !self.wait_long,
    {
        if elapsed_secs < FAKE_IDLE_EAGER_SECS && !self.wait_long {
            FAKE_IDLE_SHORT_SECS
        } else {
            FAKE_IDLE_LONG_SECS
        }
    }

    /// Takes the outcome of a reconnect. Returns whether the wait ends: it
    /// does when the engine is connected again. After a failure the long
    /// interval is used.
    pub fn reconnected(&mut self, connected: bool) -> (stop: bool)
        ensures
            stop == connected,
            final(self).wait_long == (old(self).wait_long || !connected),
    {
        if connected {
            true
        } else {
            self.wait_long = true;
            false
        }
    }

    /// Takes the number of messages that a poll's fetch considered. Returns
    /// whether the wait ends: it does when there was any.
    pub fn fetched(&self, read_cnt: usize) -> (stop: bool)
        ensures
            stop == (read_cnt != 0),
    {
        read_cnt != 0
    }
}

impl Imap {
    fn idle_select_watch(&mut self) -> (step: IdleStep)
        ensures
            (final(self)@, step) == old(self)@.idle_select(),
    {
        let watched: Option<String> = match &self.config.watch_folder {
            Some(folder) => Some(folder.clone()),
            None => None,
        };
        match watched {
            Some(folder) => match self.select_folder(folder.as_str()) {
                SelectStep::Done(true) => IdleStep::Spawn,
                SelectStep::Done(false) => IdleStep::FakeIdle,
                SelectStep::Select { expunge_first } => IdleStep::Select { expunge_first },
            },
            None => IdleStep::Spawn,
        }
    }

    /// Starts an IDLE wait. Without the IDLE capability the caller polls.
    /// Otherwise the session is set up if needed and the watch folder is
    /// selected; if it cannot be selected, the caller polls.
    pub fn idle(&mut self) -> (step: IdleStep)
        ensures
            (final(self)@, step) == old(self)@.idle(),
            !old(self)@.config.can_idle ==> step == IdleStep::FakeIdle
                && final(self)@ == old(self)@,
    {
        if !self.config.can_idle {
            return IdleStep::FakeIdle;
        }
        match self.setup_handle_if_needed() {
            SetupStep::Open(plan) => IdleStep::Setup(plan),
            _ => self.idle_select_watch(),
        }
    }

    /// Goes on with an IDLE wait after the session was set up, whatever came
    /// of that.
    pub fn idle_after_setup(&mut self) -> (step: IdleStep)
        ensures
            (final(self)@, step) == old(self)@.idle_select(),
    {
        self.idle_select_watch()
    }

    /// Goes on with an IDLE wait after the server's answer to SELECT.
    pub fn idle_selected(&mut self, reply: Option<Mailbox>) -> (step: IdleStep)
        ensures
            (final(self)@, step) == old(self)@.idle_selected(reply),
    {
        let watched: Option<String> = match &self.config.watch_folder {
            Some(folder) => Some(folder.clone()),
            None => None,
        };
        match watched {
            Some(folder) => {
                if self.select_folder_finish(folder.as_str(), reply) {
                    IdleStep::Spawn
                } else {
                    IdleStep::FakeIdle
                }
            },
            None => IdleStep::Spawn,
        }
    }

    fn idle_handle_result(&mut self, result: WorkerResult) -> (wake: IdleWake)
        ensures
            (final(self)@, wake) == old(self)@.idle_result(result),
    {
        self.watch = false;
        match result {
            WorkerResult::Data => IdleWake::Data,
            WorkerResult::Error(IdleError::Other) => IdleWake::Unknown,
            WorkerResult::Error(_) => {
                let teardown = self.unsetup_handle();
                self.should_reconnect = true;
                IdleWake::Reconnect { teardown }
            },
        }
    }

    /// Looks at the worker before the wait begins: `worker` is its result,
    /// if it has one already.
    pub fn idle_poll(&mut self, worker: Option<WorkerResult>) -> (wake: IdleWake)
        ensures
            (final(self)@, wake) == old(self)@.idle_poll(worker),
    {
        match worker {
            Some(result) => self.idle_handle_result(result),
            None => IdleWake::Wait,
        }
    }

    /// Takes a wake-up of the IDLE wait: `worker` is the worker's result, if
    /// it has one. With the watch flag set the wait ends, by the worker's
    /// result or, without one, as interrupted; the flag is cleared. Without
    /// the flag the wait goes on unless the worker has a result.
    pub fn idle_woken(&mut self, worker: Option<WorkerResult>) -> (wake: IdleWake)
        ensures
            (final(self)@, wake) == old(self)@.idle_woken(worker),
            old(self)@.watch ==> wake != IdleWake::Wait && !final(self)@.watch,
    {
        if self.watch {
            match worker {
                Some(result) => self.idle_handle_result(result),
                None => {
                    self.watch = false;
                    IdleWake::Interrupted
                },
            }
        } else {
            self.idle_poll(worker)
        }
    }

    /// Records that the worker has ended: sets the watch flag, as an
    /// interrupt does.
    pub fn idle_worker_finished(&mut self)
        ensures
            final(self)@ == old(self)@.interrupt(),
    {
        self.watch = true;
    }

    /// Ends the current wait from outside: sets the watch flag. The caller
    /// then wakes the waiting side.
    pub fn interrupt_idle(&mut self)
        ensures
            final(self)@ == old(self)@.interrupt(),
    {
        self.watch = true;
    }

    /// Takes a wake-up of the polling wait. With the watch flag set the wait
    /// returns and the flag is cleared; after a full interval a poll is due;
    /// any other wake-up waits on.
    pub fn fake_idle_woken(&mut self, timed_out: bool) -> (wake: FakeWake)
        ensures
            (final(self)@, wake) == old(self)@.fake_idle_woken(timed_out),
    {
        if self.watch {
            self.watch = false;
            FakeWake::Return
        } else if timed_out {
            FakeWake::Poll
        } else {
            FakeWake::Wait
        }
    }

    /// Says what a poll consists of.
    pub fn fake_idle_poll(&self) -> (poll: FakePoll)
        ensures
            poll == self@.fake_idle_poll(),
    {
        if !self.connected {
            FakePoll::Reconnect
        } else if self.config.watch_folder.is_some() {
            FakePoll::Fetch
        } else {
            FakePoll::Sleep
        }
    }
}

/// While nothing interrupts, no data arrives and the engine stays connected,
/// a polling wait uses the short interval for its first three minutes and the
/// long one from then on.
pub proof fn fake_idle_intervals(elapsed_secs: u64)
    ensures
        elapsed_secs < 180 ==> poll_interval(elapsed_secs, false) == 5,
        elapsed_secs >= 180 ==> poll_interval(elapsed_secs, false) == 60,
        poll_interval(elapsed_secs, true) == 60,
{
}

/// An interrupt ends the IDLE wait at its next wake-up, whether or not the
/// server has pushed anything: without a worker's result the wait returns
/// as interrupted. The flag is cleared, so the interrupt ends one wait only.
pub proof fn interrupt_ends_idle(s: ImapModel, worker: Option<WorkerResult>)
    ensures
        s.interrupt().idle_woken(None).1 == IdleWake::Interrupted,
        s.interrupt().idle_woken(worker).1 != IdleWake::Wait,
        !s.interrupt().idle_woken(worker).0.watch,
        s.interrupt().idle_woken(None).0.idle_woken(None).1 == IdleWake::Wait,
{
}

/// An interrupt ends the polling wait at its next wake-up, before anything is
/// polled.
pub proof fn interrupt_ends_fake_idle(s: ImapModel, timed_out: bool)
    ensures
        s.interrupt().fake_idle_woken(timed_out).1 == FakeWake::Return,
        !s.interrupt().fake_idle_woken(timed_out).0.watch,
{
}

/// Whatever the worker meets, the waiting side sees either data or a broken
/// transport, and a broken transport always asks for a reconnect.
pub proof fn worker_failures_ask_for_reconnect(s: ImapModel, outcome: KeepaliveOutcome)
    requires
        outcome == KeepaliveOutcome::StartFailed || outcome == KeepaliveOutcome::WaitFailed,
    ensures
        worker_step(outcome) matches WorkerStep::Finish(result) && ({
            let after = s.idle_poll(Some(result));
            &&& after.1 == (IdleWake::Reconnect { teardown: s.session_open })
            &&& after.0.should_reconnect
            &&& !after.0.session_open
        }),
{
}

/// After an IDLE wait that ended on a broken transport, the next setup opens
/// a new session, and has nothing left to tear down.
pub proof fn broken_idle_leads_to_reconnect(s: ImapModel, error: IdleError)
    requires
        breaks_transport(error),
        s.config.imap_server.len() > 0,
    ensures
        s.idle_poll(Some(WorkerResult::Error(error))).0.setup().1 matches SetupStep::Open(plan)
            && !plan.teardown,
{
}

} // verus!

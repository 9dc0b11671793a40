//! The vocabulary in which the library and its environment talk.
//!
//! A lifecycle operation is driven in a loop: call it with [`Event::Begin`],
//! perform the [`Action`] it answers with, call it again with the event that
//! reports how that went, and stop when the answer is [`Action::Done`].

use vstd::prelude::*;
use crate::error::{DockrError, DockrResult};

verus! {

/// The grace period of `stop` and `stop_all`, in milliseconds.
pub const STOP_TIMEOUT: u128 = 3000;

/// How long the environment should sleep between two polls, in milliseconds.
pub const POLL_INTERVAL: u64 = 20;

/// The three operations that work on one process at a time.
#[derive(Debug, Clone, Copy, PartialEq, Eq, Structural)]
pub enum Op {
    /// Create the process.
    Start,
    /// Wait for the process to exit on its own.
    Wait,
    /// Give the process `timeout` milliseconds to exit, then kill it.
    Stop { timeout: u128 },
}

/// What the environment reports to an operation.
#[derive(Debug, Clone, Copy, PartialEq, Eq, Structural)]
pub enum Event {
    /// Nothing has happened yet: the operation is being called.
    Begin,
    /// The warning asked for by [`Action::Warn`] was emitted.
    Warned,
    /// The process asked for by [`Action::Spawn`] was created.
    Spawned { pid: u32 },
    /// The process asked for by [`Action::Spawn`] could not be created.
    SpawnFailed,
    /// The process that was waited for or polled has exited.
    Exited,
    /// Waiting for the process, or polling it, failed.
    WaitFailed,
    /// The polled process is still running; `elapsed_ms` is the time since
    /// the first poll of this process was asked for.
    Running { elapsed_ms: u128 },
    /// The process asked to be killed by [`Action::Kill`] was killed and is
    /// gone.
    Killed,
    /// The process could not be killed.
    KillFailed,
}

/// A condition worth telling the operator about that is no failure.
#[derive(Debug, Clone, Copy, PartialEq, Eq, Structural)]
pub enum Warning {
    /// A batch was started on a collection without modules.
    EmptyCollection,
}

/// A command line, ready to be handed to the operating system. The arguments
/// go to the executable verbatim; no shell reads them.
#[derive(Debug, PartialEq, Eq)]
pub struct Launch {
    /// The executable, looked up relative to `dir`.
    pub cmd: String,
    /// The working directory of the new process.
    pub dir: String,
    /// The arguments, in order.
    pub args: Vec<String>,
}

/// The mathematical content of a [`Launch`].
pub struct LaunchView {
    pub cmd: Seq<char>,
    pub dir: Seq<char>,
    pub args: Seq<Seq<char>>,
}

impl View for Launch {
    type V = LaunchView;

    open spec fn view(&self) -> LaunchView {
        LaunchView { cmd: self.cmd@, dir: self.dir@, args: self.args.deep_view() }
    }
}

/// What an operation asks its environment to do next.
#[derive(Debug, PartialEq, Eq)]
pub enum Action {
    /// Create a process; answer with [`Event::Spawned`] or
    /// [`Event::SpawnFailed`].
    Spawn(Launch),
    /// Block until the process exits; answer with [`Event::Exited`] or
    /// [`Event::WaitFailed`].
    Wait { pid: u32 },
    /// Look at the process without blocking; answer with [`Event::Exited`],
    /// [`Event::Running`] or [`Event::WaitFailed`].
    Poll { pid: u32 },
    /// Kill the process; answer with [`Event::Killed`] or
    /// [`Event::KillFailed`].
    Kill { pid: u32 },
    /// Emit a warning; answer with [`Event::Warned`].
    Warn(Warning),
    /// The operation is over, with this outcome.
    Done(DockrResult),
}

/// The mathematical content of an [`Action`].
pub enum ActionView {
    Spawn(LaunchView),
    Wait { pid: u32 },
    Poll { pid: u32 },
    Kill { pid: u32 },
    Warn(Warning),
    Done(DockrResult),
}

impl View for Action {
    type V = ActionView;

    open spec fn view(&self) -> ActionView {
        match *self {
            Action::Spawn(launch) => ActionView::Spawn(launch@),
            Action::Wait { pid } => ActionView::Wait { pid },
            Action::Poll { pid } => ActionView::Poll { pid },
            Action::Kill { pid } => ActionView::Kill { pid },
            Action::Warn(warning) => ActionView::Warn(warning),
            Action::Done(outcome) => ActionView::Done(outcome),
        }
    }
}

/// The action that ends an operation successfully.
pub open spec fn done() -> ActionView {
    ActionView::Done(Ok(()))
}

/// Whether an action ends an operation successfully.
pub open spec fn succeeded(action: ActionView) -> bool {
    action matches ActionView::Done(Ok(_))
}

/// The action that ends an operation with a failure.
pub open spec fn failed(error: DockrError) -> ActionView {
    ActionView::Done(Err(error))
}

} // verus!

//! Supervision of the worker process.
//!
//! The supervisor owns the handle of the running process and decides what
//! is to be done with it. Starting, stopping and awaiting the process are
//! the driver's part: it starts a process and hands the outcome to
//! [`ProcessSupervisor::start`], and it stops whatever handle
//! [`ProcessSupervisor::stop`] gives back.

use vstd::prelude::*;
use crate::error::{ErrorKind, ErrorView, ExeUnitError};

pub mod dummy;

verus! {

/// Aggregate usage figure kept by a runtime.
#[derive(Clone, Default)]
pub struct Usage {
    pub cnt: u64,
}

/// Where the supervised process stands.
pub enum ProcessState<H> {
    /// No process has been started yet.
    Deployed,
    /// The process runs; this is its handle.
    Working { handle: H },
    /// The process was stopped or has ended. Nothing can be started again.
    Stopped,
}

/// Lifecycle controller of one worker process with handles of type `H`.
pub struct ProcessSupervisor<H> {
    pub state: ProcessState<H>,
}

/// Why [`ProcessSupervisor::start`] did not take the process.
pub enum StartRefusal<H> {
    /// The process did not start; the supervisor is unchanged.
    Failed { error: ExeUnitError },
    /// The supervisor was not `Deployed`. A process that the driver had
    /// started all the same is handed back.
    NotDeployed { handle: Option<H> },
}

impl<H> ProcessSupervisor<H> {
    /// A supervisor with no process yet.
    pub fn new() -> (r: Self)
        ensures
            r.state is Deployed,
    {
        ProcessSupervisor { state: ProcessState::Deployed }
    }

    /// Whether a process can still be started.
    pub fn is_deployed(&self) -> (r: bool)
        ensures
            r == (self.state is Deployed),
    {
        match &self.state {
            ProcessState::Deployed => true,
            _ => false,
        }
    }

    /// Whether a process is running.
    pub fn is_working(&self) -> (r: bool)
        ensures
            r == (self.state is Working),
    {
        match &self.state {
            ProcessState::Working { .. } => true,
            _ => false,
        }
    }

    /// Takes the outcome of starting the process.
    ///
    /// From `Deployed`, a started process makes the supervisor `Working`
    /// and a failed start leaves it `Deployed` and comes back as a
    /// `StartFailure` with the runtime's own words. In any other state
    /// nothing changes and the handle, if there is one, is handed back.
    pub fn start(&mut self, launched: Result<H, String>) -> (r: Result<(), StartRefusal<H>>)
        ensures
            final(self).state == state_after_start(old(self).state, launched),
            match r {
                Ok(_) => old(self).state is Deployed && launched is Ok,
                Err(StartRefusal::Failed { error }) => {
                    &&& old(self).state is Deployed
                    &&& launched is Err
                    &&& error@ == (ErrorView {
                        kind: ErrorKind::StartFailure,
                        detail: launched->Err_0@,
                    })
                },
                Err(StartRefusal::NotDeployed { handle }) => {
                    &&& !(old(self).state is Deployed)
                    &&& handle == match launched {
                        Ok(h) => Some(h),
                        Err(_) => None::<H>,
                    }
                },
            },
    {
        if self.is_deployed() {
            match launched {
                Ok(handle) => {
                    self.state = ProcessState::Working { handle };
                    Ok(())
                },
                Err(message) => Err(
                    StartRefusal::Failed {
                        error: ExeUnitError::new(ErrorKind::StartFailure, message),
                    },
                ),
            }
        } else {
            match launched {
                Ok(handle) => Err(StartRefusal::NotDeployed { handle: Some(handle) }),
                Err(_) => Err(StartRefusal::NotDeployed { handle: None }),
            }
        }
    }

    /// Stops supervising. The supervisor is `Stopped` afterwards, whatever
    /// it was before. The handle of a process that was running is returned
    /// for the driver to stop: it is returned once, so a second `stop` has
    /// nothing to give back.
    pub fn stop(&mut self) -> (r: Option<H>)
        ensures
            final(self).state is Stopped,
            r == stop_gives(old(self).state),
    {
        let mut taken = ProcessState::Stopped;
        std::mem::swap(&mut self.state, &mut taken);
        match taken {
            ProcessState::Working { handle } => Some(handle),
            _ => None,
        }
    }

    /// Records that the running process has ended by itself. A `Working`
    /// supervisor becomes `Stopped` and gives up the handle; in any other
    /// state there is no process whose end could be meant and nothing
    /// changes.
    pub fn exited(&mut self) -> (r: Option<H>)
        ensures
            old(self).state matches ProcessState::Working { handle } ==> final(self).state
                is Stopped && r == Some(handle),
            !(old(self).state is Working) ==> final(self).state == old(self).state && r is None,
    {
        if self.is_working() {
            self.stop()
        } else {
            None
        }
    }

    /// A liveness token: `Some` until the supervisor is `Stopped`.
    pub fn report(&self) -> (r: Option<()>)
        ensures
            r is Some <==> !(self.state is Stopped),
    {
        match &self.state {
            ProcessState::Stopped => None,
            _ => Some(()),
        }
    }

    /// The running process, for the driver to await its end: `Some` only
    /// while `Working`.
    pub fn handle(&self) -> (r: Option<&H>)
        ensures
            r == match self.state {
                ProcessState::Working { handle } => Some(&handle),
                _ => None::<&H>,
            },
    {
        match &self.state {
            ProcessState::Working { handle } => Some(handle),
            _ => None,
        }
    }

    /// The running process, for the driver to poll for its end: `Some`
    /// only while `Working`. Whatever the driver does to the process, the
    /// supervisor keeps it and stays `Working`.
    pub fn handle_mut(&mut self) -> (r: Option<&mut H>)
        ensures
            match r {
                Some(handle) => {
                    &&& old(self).state == (ProcessState::Working { handle: *handle })
                    &&& final(self).state == (ProcessState::Working { handle: *final(handle) })
                },
                None => !(old(self).state is Working) && final(self).state == old(self).state,
            },
    {
        match &mut self.state {
            ProcessState::Working { handle } => Some(handle),
            _ => None,
        }
    }
}

/// Stopping is idempotent: a `stop` leaves the supervisor `Stopped`, and
/// from `Stopped` or `Deployed` a `stop` has no handle to give back. So,
/// whatever the state `before`, the driver is handed a process to stop
/// only if one was running, never a second time, and never before one was
/// started.
pub proof fn lemma_stop_hands_out_at_most_once<H>(before: ProcessState<H>)
    ensures
        stop_gives(before) is Some <==> before is Working,
        stop_gives(ProcessState::<H>::Stopped) is None,
        stop_gives(ProcessState::<H>::Deployed) is None,
{
}

/// The state in which `start` leaves the supervisor.
pub open spec fn state_after_start<H>(state: ProcessState<H>, launched: Result<H, String>)
    -> ProcessState<H> {
    match (state, launched) {
        (ProcessState::Deployed, Ok(handle)) => ProcessState::Working { handle },
        (state, _) => state,
    }
}

/// What `stop` returns from a given state.
pub open spec fn stop_gives<H>(state: ProcessState<H>) -> Option<H> {
    match state {
        ProcessState::Working { handle } => Some(handle),
        _ => None,
    }
}

} // verus!

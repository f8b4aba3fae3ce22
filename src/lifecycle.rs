//! The lifecycle manager: the single point that decides how the active
//! resource is loaded, swapped and released.
//!
//! The manager never calls the engine itself. A state-changing request
//! moves it into `Loading` or `Unloading` and hands back the work to run
//! off the request path; the outcome of that work is committed afterwards.
use crate::catalog::{catalog_contains, names_of};
use vstd::prelude::*;

verus! {

/// Where the manager stands.
#[derive(Clone, Copy, Debug, PartialEq, Eq, Structural)]
pub enum Phase {
    Empty,
    Loading,
    Loaded,
    Unloading,
}

/// The process status reported to clients.
#[derive(Clone, Copy, Debug, PartialEq, Eq, Structural)]
pub enum ProcessStatus {
    /// The last operation succeeded, or none has run.
    Ready,
    /// The last operation failed.
    Failed,
    /// A load or an unload is in flight.
    Working,
}

/// Why a request was refused or failed.
#[derive(Clone, Copy, Debug, PartialEq, Eq, Structural)]
pub enum LifecycleError {
    /// The identifier is not in the catalog.
    UnknownResource,
    /// A load or an unload is already in flight.
    OperationInProgress,
    /// There is nothing to unload.
    NoActiveResource,
    /// The engine could not materialise the resource.
    AcquireFailed,
    /// The engine reported an error while freeing the resource.
    ReleaseFailed,
}

/// Work for the background loader: release `release` first, if present,
/// then acquire the resource named `identifier`.
pub struct LoadJob<H> {
    pub release: Option<H>,
    pub identifier: String,
}

/// The abstract state of a manager.
pub struct LifecycleState<H> {
    pub phase: Phase,
    pub status: ProcessStatus,
    /// The identifier reported as current.
    pub current: Option<Seq<char>>,
    /// The identifier of the load in flight.
    pub pending: Option<Seq<char>>,
    /// The live handle owned by the manager.
    pub handle: Option<H>,
    /// The identifier of the most recent successful load.
    pub last_loaded: Option<Seq<char>>,
    /// Acquire calls handed to the engine so far.
    pub acquire_calls: nat,
    /// Release calls handed to the engine so far.
    pub release_calls: nat,
    /// Handles the engine has produced so far.
    pub acquired: nat,
}

/// The view of an optional string.
pub open spec fn opt_view(o: Option<String>) -> Option<Seq<char>> {
    match o {
        Some(s) => Some(s@),
        None => None,
    }
}

impl<H> LifecycleState<H> {
    /// The state of a freshly built manager.
    pub open spec fn initial() -> Self {
        LifecycleState {
            phase: Phase::Empty,
            status: ProcessStatus::Ready,
            current: None,
            pending: None,
            handle: None,
            last_loaded: None,
            acquire_calls: 0,
            release_calls: 0,
            acquired: 0,
        }
    }

    /// Handles produced by the engine and not yet handed back for release.
    pub open spec fn live_handles(self) -> int {
        self.acquired - self.release_calls
    }

    pub open spec fn in_flight(self) -> bool {
        self.phase == Phase::Loading || self.phase == Phase::Unloading
    }

    /// The manager's invariant.
    pub open spec fn wf(self) -> bool {
        &&& (self.phase == Phase::Loaded) == self.handle.is_some()
        &&& self.current.is_some() == self.handle.is_some()
        &&& (self.phase == Phase::Loading) == self.pending.is_some()
        &&& (self.status == ProcessStatus::Working) == self.in_flight()
        &&& self.current.is_some() ==> self.current == self.last_loaded
        &&& self.acquired == self.release_calls + (if self.handle.is_some() {
            1nat
        } else {
            0nat
        })
    }

    /// The error a load of `id` meets, if any, against `catalog`.
    pub open spec fn load_check(self, id: Seq<char>, catalog: Seq<Seq<char>>) -> Option<
        LifecycleError,
    > {
        if !catalog.contains(id) {
            Some(LifecycleError::UnknownResource)
        } else if self.in_flight() {
            Some(LifecycleError::OperationInProgress)
        } else {
            None
        }
    }

    /// The state once a load of `id` has been accepted: the old handle,
    /// if any, goes to the loader for release and nothing is current.
    pub open spec fn requested_load(self, id: Seq<char>) -> Self {
        LifecycleState {
            phase: Phase::Loading,
            status: ProcessStatus::Working,
            current: None,
            pending: Some(id),
            handle: None,
            acquire_calls: self.acquire_calls + 1,
            release_calls: self.release_calls + (if self.handle.is_some() {
                1nat
            } else {
                0nat
            }),
            ..self
        }
    }

    /// The state once the loader reports `outcome`: a new handle, or none
    /// when the acquire failed.
    pub open spec fn committed_load(self, outcome: Option<H>) -> Self {
        match outcome {
            Some(h) => LifecycleState {
                phase: Phase::Loaded,
                status: ProcessStatus::Ready,
                current: self.pending,
                pending: None,
                handle: Some(h),
                last_loaded: self.pending,
                acquired: self.acquired + 1,
                ..self
            },
            None => LifecycleState {
                phase: Phase::Empty,
                status: ProcessStatus::Failed,
                current: None,
                pending: None,
                handle: None,
                ..self
            },
        }
    }

    /// The error an unload meets, if any.
    pub open spec fn unload_check(self) -> Option<LifecycleError> {
        match self.phase {
            Phase::Empty => Some(LifecycleError::NoActiveResource),
            Phase::Loaded => None,
            _ => Some(LifecycleError::OperationInProgress),
        }
    }

    /// The state once an unload has been accepted.
    pub open spec fn requested_unload(self) -> Self {
        LifecycleState {
            phase: Phase::Unloading,
            status: ProcessStatus::Working,
            current: None,
            handle: None,
            release_calls: self.release_calls + 1,
            ..self
        }
    }

    /// The state once the release has run; the handle counts as released
    /// even when the engine reported an error.
    pub open spec fn committed_unload(self, released: bool) -> Self {
        LifecycleState {
            phase: Phase::Empty,
            status: if released {
                ProcessStatus::Ready
            } else {
                ProcessStatus::Failed
            },
            ..self
        }
    }

    /// The state after shutdown has taken any live handle for release.
    pub open spec fn shut_down(self) -> Self {
        if self.handle.is_some() {
            LifecycleState {
                phase: Phase::Empty,
                current: None,
                handle: None,
                release_calls: self.release_calls + 1,
                ..self
            }
        } else {
            self
        }
    }
}

/// The lifecycle manager. It owns the live handle, if any.
pub struct Lifecycle<H> {
    phase: Phase,
    status: ProcessStatus,
    current: Option<String>,
    pending: Option<String>,
    handle: Option<H>,
    last_loaded: Ghost<Option<Seq<char>>>,
    acquire_calls: Ghost<nat>,
    release_calls: Ghost<nat>,
    acquired: Ghost<nat>,
}

impl<H> View for Lifecycle<H> {
    type V = LifecycleState<H>;

    closed spec fn view(&self) -> LifecycleState<H> {
        LifecycleState {
            phase: self.phase,
            status: self.status,
            current: opt_view(self.current),
            pending: opt_view(self.pending),
            handle: self.handle,
            last_loaded: self.last_loaded@,
            acquire_calls: self.acquire_calls@,
            release_calls: self.release_calls@,
            acquired: self.acquired@,
        }
    }
}

impl<H> Lifecycle<H> {
    /// A manager with nothing loaded.
    pub fn new() -> (r: Self)
        ensures
            r@ == LifecycleState::<H>::initial(),
            r@.wf(),
    {
        Lifecycle {
            phase: Phase::Empty,
            status: ProcessStatus::Ready,
            current: None,
            pending: None,
            handle: None,
            last_loaded: Ghost(None),
            acquire_calls: Ghost(0),
            release_calls: Ghost(0),
            acquired: Ghost(0),
        }
    }

    pub fn phase(&self) -> (r: Phase)
        ensures
            r == self@.phase,
    {
        self.phase
    }

    pub fn status(&self) -> (r: ProcessStatus)
        ensures
            r == self@.status,
    {
        self.status
    }

    /// The identifier of the resource that is loaded, if any.
    pub fn current(&self) -> (r: Option<String>)
        ensures
            opt_view(r) == self@.current,
    {
        match &self.current {
            Some(s) => Some(s.clone()),
            None => None,
        }
    }

    /// Accepts or refuses a load of `id`. On acceptance the manager is
    /// `Loading` and the returned job holds the old handle, if any.
    pub fn begin_load(&mut self, id: String, catalog: &Vec<String>) -> (r: Result<
        LoadJob<H>,
        LifecycleError,
    >)
        requires
            old(self)@.wf(),
        ensures
            final(self)@.wf(),
            match old(self)@.load_check(id@, names_of(catalog@)) {
                Some(e) => r == Err::<LoadJob<H>, LifecycleError>(e) && final(self)@ == old(self)@,
                None => r matches Ok(job) && job.identifier@ == id@ && job.release == old(
                    self,
                )@.handle && final(self)@ == old(self)@.requested_load(id@),
            },
    {
        if !catalog_contains(catalog, &id) {
            return Err(LifecycleError::UnknownResource);
        }
        match self.phase {
            Phase::Loading | Phase::Unloading => {
                return Err(LifecycleError::OperationInProgress);
            },
            _ => {},
        }
        let release = self.handle.take();
        if release.is_some() {
            self.release_calls = Ghost(self.release_calls@ + 1);
        }
        self.acquire_calls = Ghost(self.acquire_calls@ + 1);
        self.current = None;
        self.pending = Some(id.clone());
        self.phase = Phase::Loading;
        self.status = ProcessStatus::Working;
        Ok(LoadJob { release, identifier: id })
    }

    /// Commits the loader's outcome: `Some` carries the new handle.
    pub fn finish_load(&mut self, outcome: Option<H>) -> (r: Result<(), LifecycleError>)
        requires
            old(self)@.wf(),
            old(self)@.phase == Phase::Loading,
        ensures
            final(self)@.wf(),
            final(self)@ == old(self)@.committed_load(outcome),
            r == (if outcome.is_some() {
                Ok::<(), LifecycleError>(())
            } else {
                Err(LifecycleError::AcquireFailed)
            }),
    {
        let pending = self.pending.take();
        match outcome {
            Some(h) => {
                self.handle = Some(h);
                self.current = pending;
                self.last_loaded = Ghost(opt_view(self.current));
                self.acquired = Ghost(self.acquired@ + 1);
                self.phase = Phase::Loaded;
                self.status = ProcessStatus::Ready;
                Ok(())
            },
            None => {
                self.phase = Phase::Empty;
                self.status = ProcessStatus::Failed;
                Err(LifecycleError::AcquireFailed)
            },
        }
    }

    /// Accepts or refuses an unload. On acceptance the manager is
    /// `Unloading` and the live handle is handed back for release.
    pub fn begin_unload(&mut self) -> (r: Result<H, LifecycleError>)
        requires
            old(self)@.wf(),
        ensures
            final(self)@.wf(),
            match old(self)@.unload_check() {
                Some(e) => r == Err::<H, LifecycleError>(e) && final(self)@ == old(self)@,
                None => old(self)@.handle == Some(r->Ok_0) && r is Ok && final(self)@ == old(
                    self,
                )@.requested_unload(),
            },
    {
        match self.phase {
            Phase::Empty => Err(LifecycleError::NoActiveResource),
            Phase::Loaded => {
                let h = self.handle.take();
                self.current = None;
                self.release_calls = Ghost(self.release_calls@ + 1);
                self.phase = Phase::Unloading;
                self.status = ProcessStatus::Working;
                match h {
                    Some(h) => Ok(h),
                    None => Err(LifecycleError::NoActiveResource),
                }
            },
            _ => Err(LifecycleError::OperationInProgress),
        }
    }

    /// Commits the end of a release; `released` is false when the engine
    /// reported an error, and the handle is gone either way.
    pub fn finish_unload(&mut self, released: bool) -> (r: Result<(), LifecycleError>)
        requires
            old(self)@.wf(),
            old(self)@.phase == Phase::Unloading,
        ensures
            final(self)@.wf(),
            final(self)@ == old(self)@.committed_unload(released),
            r == (if released {
                Ok::<(), LifecycleError>(())
            } else {
                Err(LifecycleError::ReleaseFailed)
            }),
    {
        self.phase = Phase::Empty;
        if released {
            self.status = ProcessStatus::Ready;
            Ok(())
        } else {
            self.status = ProcessStatus::Failed;
            Err(LifecycleError::ReleaseFailed)
        }
    }

    /// Takes the live handle, if any, so that it can be released on the way out.
    pub fn shutdown(&mut self) -> (r: Option<H>)
        requires
            old(self)@.wf(),
        ensures
            final(self)@.wf(),
            r == old(self)@.handle,
            final(self)@ == old(self)@.shut_down(),
    {
        let h = self.handle.take();
        if h.is_some() {
            self.current = None;
            self.release_calls = Ghost(self.release_calls@ + 1);
            self.phase = Phase::Empty;
        }
        h
    }
}

} // verus!

//! The request surface: requests in, replies or work out.
//!
//! The caller runs the loop: it hands each request to the manager, runs
//! the returned work away from the request path, and hands the outcome
//! back to get the reply.
use crate::catalog::names_of;
use crate::lifecycle::{opt_view, Lifecycle, LifecycleError, LoadJob, Phase, ProcessStatus};
use vstd::prelude::*;

verus! {

/// A client request.
pub enum Request {
    /// Make the named resource the active one.
    Load(String),
    /// Release the active resource.
    Unload,
    /// List the loadable identifiers.
    List,
    /// Report the active identifier.
    Current,
}

/// What a client is told.
pub enum Reply {
    /// The state change went through.
    Accepted,
    /// The loadable identifiers.
    Listing(Vec<String>),
    /// The active identifier, if any.
    Current(Option<String>),
    /// The request was refused or failed.
    Rejected(LifecycleError),
}

/// Blocking engine work that must run off the request path.
pub enum Work<H> {
    /// Release the old handle, if any, then acquire the new resource.
    Load(LoadJob<H>),
    /// Release this handle.
    Release(H),
}

/// What the manager asks of its caller after a request.
pub enum Action<H> {
    Respond(Reply),
    Run(Work<H>),
}

/// The outcome of a piece of work.
pub enum Completion<H> {
    /// The acquire produced a handle, or failed.
    Loaded(Option<H>),
    /// The release ran; false when the engine reported an error.
    Released(bool),
}

/// The response code for a reply.
pub open spec fn code_of(r: Reply) -> u16 {
    match r {
        Reply::Rejected(e) => match e {
            LifecycleError::AcquireFailed | LifecycleError::ReleaseFailed => 500,
            _ => 400,
        },
        _ => 202,
    }
}

/// The response code for a reply: 202 for success, 400 for a refused
/// request, 500 for an engine failure.
pub fn reply_code(r: &Reply) -> (c: u16)
    ensures
        c == code_of(*r),
{
    match r {
        Reply::Rejected(LifecycleError::AcquireFailed) => 500,
        Reply::Rejected(LifecycleError::ReleaseFailed) => 500,
        Reply::Rejected(_) => 400,
        _ => 202,
    }
}

/// The text that goes with an error, if any.
pub open spec fn message_of(e: LifecycleError) -> Option<Seq<char>> {
    match e {
        LifecycleError::UnknownResource => Some("Invalid model name"@),
        LifecycleError::OperationInProgress => Some("Operation in progress"@),
        LifecycleError::NoActiveResource => None,
        LifecycleError::AcquireFailed => Some("Unable to load model"@),
        LifecycleError::ReleaseFailed => Some("Unable to unload: Error freeing memory"@),
    }
}

/// The human-readable text sent with an error.
pub fn error_message(e: LifecycleError) -> (r: Option<&'static str>)
    ensures
        match r {
            Some(m) => message_of(e) == Some(m@),
            None => message_of(e) is None,
        },
{
    match e {
        LifecycleError::UnknownResource => Some("Invalid model name"),
        LifecycleError::OperationInProgress => Some("Operation in progress"),
        LifecycleError::NoActiveResource => None,
        LifecycleError::AcquireFailed => Some("Unable to load model"),
        LifecycleError::ReleaseFailed => Some("Unable to unload: Error freeing memory"),
    }
}

/// The word reported for a process status.
pub open spec fn label_of(s: ProcessStatus) -> Seq<char> {
    match s {
        ProcessStatus::Ready => "ok"@,
        ProcessStatus::Failed => "error"@,
        ProcessStatus::Working => "working"@,
    }
}

/// The word reported for a process status.
pub fn status_label(s: ProcessStatus) -> (r: &'static str)
    ensures
        r@ == label_of(s),
{
    match s {
        ProcessStatus::Ready => "ok",
        ProcessStatus::Failed => "error",
        ProcessStatus::Working => "working",
    }
}

impl<H> Lifecycle<H> {
    /// Decides a request against `catalog`, the loadable identifiers as
    /// listed now. Reads are answered at once; an accepted load or unload
    /// yields the work to run.
    pub fn on_request(&mut self, req: Request, catalog: Vec<String>) -> (r: Action<H>)
        requires
            old(self)@.wf(),
        ensures
            final(self)@.wf(),
            match req {
                Request::List => {
                    &&& r == Action::<H>::Respond(Reply::Listing(catalog))
                    &&& final(self)@ == old(self)@
                },
                Request::Current => {
                    &&& r matches Action::Respond(Reply::Current(c))
                    &&& opt_view(r->Respond_0->Current_0) == old(self)@.current
                    &&& final(self)@ == old(self)@
                },
                Request::Load(id) => match old(self)@.load_check(id@, names_of(catalog@)) {
                    Some(e) => {
                        &&& r == Action::<H>::Respond(Reply::Rejected(e))
                        &&& final(self)@ == old(self)@
                    },
                    None => {
                        &&& r matches Action::Run(Work::Load(job))
                        &&& r->Run_0->Load_0.identifier@ == id@
                        &&& r->Run_0->Load_0.release == old(self)@.handle
                        &&& final(self)@ == old(self)@.requested_load(id@)
                    },
                },
                Request::Unload => match old(self)@.unload_check() {
                    Some(e) => {
                        &&& r == Action::<H>::Respond(Reply::Rejected(e))
                        &&& final(self)@ == old(self)@
                    },
                    None => {
                        &&& r matches Action::Run(Work::Release(h))
                        &&& old(self)@.handle == Some(r->Run_0->Release_0)
                        &&& final(self)@ == old(self)@.requested_unload()
                    },
                },
            },
    {
        match req {
            Request::List => Action::Respond(Reply::Listing(catalog)),
            Request::Current => Action::Respond(Reply::Current(self.current())),
            Request::Load(id) => match self.begin_load(id, &catalog) {
                Ok(job) => Action::Run(Work::Load(job)),
                Err(e) => Action::Respond(Reply::Rejected(e)),
            },
            Request::Unload => match self.begin_unload() {
                Ok(h) => Action::Run(Work::Release(h)),
                Err(e) => Action::Respond(Reply::Rejected(e)),
            },
        }
    }

    /// Commits the outcome of the work in flight and gives the reply for
    /// the request that started it.
    pub fn on_completion(&mut self, done: Completion<H>) -> (r: Reply)
        requires
            old(self)@.wf(),
            done is Loaded ==> old(self)@.phase == Phase::Loading,
            done is Released ==> old(self)@.phase == Phase::Unloading,
        ensures
            final(self)@.wf(),
            match done {
                Completion::Loaded(outcome) => {
                    &&& final(self)@ == old(self)@.committed_load(outcome)
                    &&& r == (if outcome.is_some() {
                        Reply::Accepted
                    } else {
                        Reply::Rejected(LifecycleError::AcquireFailed)
                    })
                },
                Completion::Released(ok) => {
                    &&& final(self)@ == old(self)@.committed_unload(ok)
                    &&& r == (if ok {
                        Reply::Accepted
                    } else {
                        Reply::Rejected(LifecycleError::ReleaseFailed)
                    })
                },
            },
    {
        let res = match done {
            Completion::Loaded(outcome) => self.finish_load(outcome),
            Completion::Released(ok) => self.finish_unload(ok),
        };
        match res {
            Ok(()) => Reply::Accepted,
            Err(e) => Reply::Rejected(e),
        }
    }
}

} // verus!

//! Properties of the lifecycle manager that hold over every run.
use crate::lifecycle::{LifecycleError, LifecycleState, Phase};
use vstd::prelude::*;

verus! {

/// In a well-formed state at most one handle is live: the engine has
/// produced exactly one more handle than were handed back for release when
/// the manager holds one, and as many otherwise.
pub proof fn lemma_at_most_one_live_handle<H>(s: LifecycleState<H>)
    requires
        s.wf(),
    ensures
        s.live_handles() == (if s.handle.is_some() {
            1int
        } else {
            0int
        }),
        0 <= s.live_handles() <= 1,
{
}

/// One event seen by the manager: a request, or the outcome of the work
/// an accepted request started.
pub enum Event<H> {
    /// A load of an identifier, against the catalog as listed at that time.
    Load(Seq<char>, Seq<Seq<char>>),
    LoadDone(Option<H>),
    Unload,
    UnloadDone(bool),
}

/// The state after `e`; a refused request, or an outcome with no work in
/// flight for it, leaves the state as it was.
pub open spec fn apply<H>(s: LifecycleState<H>, e: Event<H>) -> LifecycleState<H> {
    match e {
        Event::Load(id, catalog) => if s.load_check(id, catalog) is None {
            s.requested_load(id)
        } else {
            s
        },
        Event::LoadDone(outcome) => if s.phase == Phase::Loading {
            s.committed_load(outcome)
        } else {
            s
        },
        Event::Unload => if s.unload_check() is None {
            s.requested_unload()
        } else {
            s
        },
        Event::UnloadDone(released) => if s.phase == Phase::Unloading {
            s.committed_unload(released)
        } else {
            s
        },
    }
}

/// The state after the events of `events`, in order, from `s`.
pub open spec fn run<H>(s: LifecycleState<H>, events: Seq<Event<H>>) -> LifecycleState<H>
    decreases events.len(),
{
    if events.len() == 0 {
        s
    } else {
        apply(run(s, events.drop_last()), events.last())
    }
}

/// Whatever sequence of loads, unloads and outcomes a fresh manager sees,
/// it stays well formed and never has more than one live handle.
pub proof fn lemma_any_run_has_at_most_one_live_handle<H>(events: Seq<Event<H>>)
    ensures
        run(LifecycleState::<H>::initial(), events).wf(),
        0 <= run(LifecycleState::<H>::initial(), events).live_handles() <= 1,
    decreases events.len(),
{
    if events.len() > 0 {
        lemma_any_run_has_at_most_one_live_handle(events.drop_last());
    }
}

/// Every transition the manager can take keeps it well formed, so the
/// single-live-handle property holds after any sequence of loads and unloads.
pub proof fn lemma_transitions_keep_invariant<H>(
    s: LifecycleState<H>,
    id: Seq<char>,
    catalog: Seq<Seq<char>>,
    outcome: Option<H>,
    released: bool,
)
    requires
        s.wf(),
    ensures
        s.load_check(id, catalog) is None ==> s.requested_load(id).wf(),
        s.phase == Phase::Loading ==> s.committed_load(outcome).wf(),
        s.unload_check() is None ==> s.requested_unload().wf(),
        s.phase == Phase::Unloading ==> s.committed_unload(released).wf(),
        s.shut_down().wf(),
{
}

/// A load of an identifier that the catalog does not list is refused as
/// unknown, whatever the manager's state, and changes nothing.
pub proof fn lemma_unknown_identifier_rejected<H>(
    s: LifecycleState<H>,
    id: Seq<char>,
    catalog: Seq<Seq<char>>,
)
    requires
        !catalog.contains(id),
    ensures
        s.load_check(id, catalog) == Some(LifecycleError::UnknownResource),
        apply(s, Event::Load(id, catalog)) == s,
{
}

/// An unload with nothing loaded is refused with `NoActiveResource` and
/// changes nothing, so no release call is made.
pub proof fn lemma_unload_when_empty<H>(s: LifecycleState<H>)
    requires
        s.wf(),
        s.phase == Phase::Empty,
    ensures
        s.unload_check() == Some(LifecycleError::NoActiveResource),
        apply(s, Event::Unload) == s,
        apply(s, Event::Unload).release_calls == s.release_calls,
{
}

/// The current identifier is absent unless a resource is loaded, and when
/// present it is the identifier of the most recent successful load.
pub proof fn lemma_current_is_last_committed<H>(s: LifecycleState<H>)
    requires
        s.wf(),
    ensures
        s.phase != Phase::Loaded ==> s.current is None,
        s.current is Some ==> s.current == s.last_loaded,
{
}

/// A successful load makes its identifier current and the most recent one.
pub proof fn lemma_commit_sets_current<H>(
    s: LifecycleState<H>,
    id: Seq<char>,
    catalog: Seq<Seq<char>>,
    h: H,
)
    requires
        s.wf(),
        s.load_check(id, catalog) is None,
    ensures
        s.requested_load(id).committed_load(Some(h)).current == Some(id),
        s.requested_load(id).committed_load(Some(h)).last_loaded == Some(id),
{
}

/// Once a load or an unload has been accepted, every further load of a
/// listed identifier and every unload is refused with
/// `OperationInProgress` until the first one is committed.
pub proof fn lemma_one_change_at_a_time<H>(
    s: LifecycleState<H>,
    first: Seq<char>,
    second: Seq<char>,
    catalog: Seq<Seq<char>>,
)
    requires
        s.wf(),
        catalog.contains(second),
    ensures
        s.load_check(first, catalog) is None ==> {
            let t = s.requested_load(first);
            &&& t.load_check(second, catalog) == Some(LifecycleError::OperationInProgress)
            &&& t.unload_check() == Some(LifecycleError::OperationInProgress)
        },
        s.unload_check() is None ==> {
            let t = s.requested_unload();
            &&& t.load_check(second, catalog) == Some(LifecycleError::OperationInProgress)
            &&& t.unload_check() == Some(LifecycleError::OperationInProgress)
        },
{
}

/// Loading `id`, unloading, and loading `id` again from an empty manager
/// ends loaded with `id` current, after two acquire calls and one release.
pub proof fn lemma_load_unload_load<H>(
    s: LifecycleState<H>,
    id: Seq<char>,
    catalog: Seq<Seq<char>>,
    first: H,
    second: H,
)
    requires
        s.wf(),
        s.phase == Phase::Empty,
        catalog.contains(id),
    ensures
        ({
            let s1 = s.requested_load(id).committed_load(Some(first));
            let s2 = s1.requested_unload().committed_unload(true);
            let s3 = s2.requested_load(id).committed_load(Some(second));
            &&& s.load_check(id, catalog) is None
            &&& s1.unload_check() is None
            &&& s2.load_check(id, catalog) is None
            &&& s3.wf()
            &&& s3.phase == Phase::Loaded
            &&& s3.current == Some(id)
            &&& s3.acquire_calls == s.acquire_calls + 2
            &&& s3.release_calls == s.release_calls + 1
        }),
{
}

} // verus!

//! The lifecycle of a subscription session, as decisions from state and
//! signal to next state and action. The driver that owns the native handle,
//! the run loop and the delivery channel performs each action and reports
//! what happened.

use vstd::prelude::*;
use crate::event::FsEvent;

verus! {

/// The native facility's id for "only events from now on".
pub const SINCE_NOW: u64 = 0xffff_ffff_ffff_ffff;

/// Why a session stopped.
#[derive(Clone, Copy, Debug, PartialEq, Eq, Structural)]
pub enum StopCause {
    /// The consumer asked for the stop.
    Requested,
    /// The facility tore the subscription down; resubscribing from the resume
    /// id may be in order.
    Invalidated,
    /// The facility refused to create the subscription.
    SubscribeFailed,
}

/// Where a session stands.
#[derive(Clone, Copy, Debug, PartialEq, Eq, Structural)]
pub enum Phase {
    /// Configured; the facility has not been contacted.
    Created,
    /// The subscription has been asked for and its outcome is pending.
    Starting,
    /// The subscription exists and batches flow.
    Running,
    /// Over; no further batch is delivered.
    Stopped(StopCause),
}

/// What the driver reports to the session.
#[derive(Clone, Copy, Debug, PartialEq, Eq, Structural)]
pub enum Signal {
    /// The consumer asked the session to run.
    Start,
    /// The facility created the subscription; the driver holds its handle.
    Subscribed,
    /// The facility refused to create the subscription.
    SubscribeFailed,
    /// The consumer asked the session to stop.
    Stop,
    /// The facility says the subscription is no longer valid.
    Invalidated,
}

/// What the driver must do next.
#[derive(Clone, Copy, Debug, PartialEq, Eq, Structural)]
pub enum Action {
    /// Ask the facility for a subscription over the roots, from the resume id.
    Subscribe,
    /// Release the native handle; the delivery channel stays as it is.
    Release,
    /// Release the native handle, which ends the run loop, and close the
    /// delivery channel.
    ReleaseAndClose,
    /// Close the delivery channel; no handle is held.
    Close,
    /// Nothing.
    Nothing,
}

/// A configuration that a session refuses.
#[derive(Clone, Copy, Debug, PartialEq, Eq, Structural)]
pub enum ConfigError {
    /// No root was given.
    NoRoots,
    /// The root at this index is empty.
    EmptyRoot(usize),
}

/// The next phase and the action for a signal received in a phase.
pub open spec fn transition(phase: Phase, signal: Signal) -> (Phase, Action) {
    match (phase, signal) {
        (Phase::Created, Signal::Start) => (Phase::Starting, Action::Subscribe),
        (Phase::Created, Signal::Stop) => (Phase::Stopped(StopCause::Requested), Action::Close),
        (Phase::Starting, Signal::Subscribed) => (Phase::Running, Action::Nothing),
        (Phase::Starting, Signal::SubscribeFailed) => (
            Phase::Stopped(StopCause::SubscribeFailed),
            Action::Close,
        ),
        (Phase::Starting, Signal::Stop) => (Phase::Stopped(StopCause::Requested), Action::Close),
        (Phase::Running, Signal::Stop) => (
            Phase::Stopped(StopCause::Requested),
            Action::ReleaseAndClose,
        ),
        (Phase::Running, Signal::Invalidated) => (
            Phase::Stopped(StopCause::Invalidated),
            Action::ReleaseAndClose,
        ),
        // A handle that arrives when none was awaited is released at once.
        (_, Signal::Subscribed) => (phase, Action::Release),
        _ => (phase, Action::Nothing),
    }
}

/// Whether an action releases the native handle.
pub open spec fn releases(action: Action) -> bool {
    action == Action::Release || action == Action::ReleaseAndClose
}

/// Whether an action closes the delivery channel.
pub open spec fn closes(action: Action) -> bool {
    action == Action::Close || action == Action::ReleaseAndClose
}

/// The largest id among `ids` and `start`.
pub open spec fn max_id(start: u64, ids: Seq<u64>) -> u64
    decreases ids.len(),
{
    if ids.len() == 0 {
        start
    } else {
        let m = max_id(start, ids.drop_last());
        if ids.last() > m {
            ids.last()
        } else {
            m
        }
    }
}

/// The ids of a batch, in order.
pub open spec fn ids_of(batch: Seq<FsEvent>) -> Seq<u64> {
    batch.map_values(|e: FsEvent| e.id)
}

/// The abstract state of a session.
pub ghost struct SessionView {
    pub roots: Seq<Seq<u8>>,
    pub since_id: u64,
    pub phase: Phase,
    /// The largest id seen so far, or the starting id: where to resume.
    pub last_id: u64,
}

/// One subscription session over a set of watched roots.
pub struct Session {
    roots: Vec<Vec<u8>>,
    since_id: u64,
    phase: Phase,
    last_id: u64,
}

impl View for Session {
    type V = SessionView;

    closed spec fn view(&self) -> SessionView {
        SessionView {
            roots: self.roots@.map_values(|r: Vec<u8>| r@),
            since_id: self.since_id,
            phase: self.phase,
            last_id: self.last_id,
        }
    }
}

impl Session {
    /// Configures a session over `roots`, resuming at `since_id` (0: events
    /// from now on). Refuses an empty list of roots, and an empty root, giving
    /// the index of the first one.
    pub fn new(roots: Vec<Vec<u8>>, since_id: u64) -> (r: Result<Session, ConfigError>)
        ensures
            r.is_ok() <==> (roots@.len() > 0 && forall|i: int|
                0 <= i < roots@.len() ==> #[trigger] roots@[i]@.len() > 0),
            r matches Ok(s) ==> s@ == (SessionView {
                roots: roots@.map_values(|r: Vec<u8>| r@),
                since_id,
                phase: Phase::Created,
                last_id: since_id,
            }),
            r == Err::<Session, ConfigError>(ConfigError::NoRoots) <==> roots@.len() == 0,
            r matches Err(ConfigError::EmptyRoot(k)) ==> {
                &&& k < roots@.len()
                &&& roots@[k as int]@.len() == 0
                &&& forall|j: int| 0 <= j < k ==> #[trigger] roots@[j]@.len() > 0
            },
    {
        if roots.len() == 0 {
            return Err(ConfigError::NoRoots);
        }
        let mut i: usize = 0;
        while i < roots.len()
            invariant
                0 <= i <= roots@.len(),
                forall|j: int| 0 <= j < i ==> #[trigger] roots@[j]@.len() > 0,
            decreases roots@.len() - i,
        {
            if roots[i].len() == 0 {
                return Err(ConfigError::EmptyRoot(i));
            }
            i = i + 1;
        }
        Ok(Session { roots, since_id, phase: Phase::Created, last_id: since_id })
    }

    /// The watched roots.
    pub fn roots(&self) -> (r: &Vec<Vec<u8>>)
        ensures
            r@.map_values(|v: Vec<u8>| v@) == self@.roots,
    {
        &self.roots
    }

    /// The id the session was configured to start from.
    pub fn since_id(&self) -> (r: u64)
        ensures
            r == self@.since_id,
    {
        self.since_id
    }

    /// The id to hand the facility when subscribing: the configured id, where
    /// 0 stands for "only events from now on".
    pub fn subscribe_from(&self) -> (r: u64)
        ensures
            r == (if self@.since_id == 0 {
                SINCE_NOW
            } else {
                self@.since_id
            }),
    {
        if self.since_id == 0 {
            SINCE_NOW
        } else {
            self.since_id
        }
    }

    /// The current phase.
    pub fn phase(&self) -> (r: Phase)
        ensures
            r == self@.phase,
    {
        self.phase
    }

    /// The id to resume from after this session ends: the largest id
    /// delivered so far, or the starting id. Resuming there may deliver that
    /// event again.
    pub fn resume_id(&self) -> (r: u64)
        ensures
            r == self@.last_id,
    {
        self.last_id
    }

    /// Why the session stopped, once it has.
    pub fn stop_cause(&self) -> (r: Option<StopCause>)
        ensures
            r == (match self@.phase {
                Phase::Stopped(c) => Some(c),
                _ => None,
            }),
    {
        match self.phase {
            Phase::Stopped(c) => Some(c),
            _ => None,
        }
    }

    /// Takes a signal, moves to the next phase, and says what the driver must
    /// do.
    pub fn step(&mut self, signal: Signal) -> (r: Action)
        ensures
            (final(self)@.phase, r) == transition(old(self)@.phase, signal),
            final(self)@.roots == old(self)@.roots,
            final(self)@.since_id == old(self)@.since_id,
            final(self)@.last_id == old(self)@.last_id,
    {
        let (phase, action) = match (self.phase, signal) {
            (Phase::Created, Signal::Start) => (Phase::Starting, Action::Subscribe),
            (Phase::Created, Signal::Stop) => (Phase::Stopped(StopCause::Requested), Action::Close),
            (Phase::Starting, Signal::Subscribed) => (Phase::Running, Action::Nothing),
            (Phase::Starting, Signal::SubscribeFailed) => (
                Phase::Stopped(StopCause::SubscribeFailed),
                Action::Close,
            ),
            (Phase::Starting, Signal::Stop) => (
                Phase::Stopped(StopCause::Requested),
                Action::Close,
            ),
            (Phase::Running, Signal::Stop) => (
                Phase::Stopped(StopCause::Requested),
                Action::ReleaseAndClose,
            ),
            (Phase::Running, Signal::Invalidated) => (
                Phase::Stopped(StopCause::Invalidated),
                Action::ReleaseAndClose,
            ),
            (p, Signal::Subscribed) => (p, Action::Release),
            (p, _) => (p, Action::Nothing),
        };
        self.phase = phase;
        action
    }

    /// Takes one decoded batch from the native callback. While running, the
    /// batch is handed back whole and in order for delivery, and the resume
    /// id moves up to its largest id; in any other phase it is dropped.
    pub fn on_batch(&mut self, batch: Vec<FsEvent>) -> (r: Option<Vec<FsEvent>>)
        ensures
            final(self)@.phase == old(self)@.phase,
            final(self)@.roots == old(self)@.roots,
            final(self)@.since_id == old(self)@.since_id,
            old(self)@.phase == Phase::Running ==> {
                &&& r matches Some(out) && out@ == batch@
                &&& final(self)@.last_id == max_id(old(self)@.last_id, ids_of(batch@))
            },
            old(self)@.phase != Phase::Running ==> {
                &&& r is None
                &&& final(self)@.last_id == old(self)@.last_id
            },
    {
        match self.phase {
            Phase::Running => {},
            _ => {
                return None;
            },
        }
        let mut m: u64 = self.last_id;
        let mut i: usize = 0;
        while i < batch.len()
            invariant
                0 <= i <= batch@.len(),
                m == max_id(self.last_id, ids_of(batch@).take(i as int)),
            decreases batch@.len() - i,
        {
            proof {
                assert(ids_of(batch@).take(i + 1).drop_last() == ids_of(batch@).take(i as int));
            }
            if batch[i].id > m {
                m = batch[i].id;
            }
            i = i + 1;
        }
        proof {
            assert(ids_of(batch@).take(batch@.len() as int) == ids_of(batch@));
        }
        self.last_id = m;
        Some(batch)
    }
}

/// Stopping closes the delivery channel, so a consumer blocked on it sees the
/// end of the stream: a stop in any phase but `Stopped` ends the session and
/// closes the channel, releasing the native handle exactly when the session
/// was running.
pub proof fn lemma_stop_closes(phase: Phase)
    requires
        !(phase is Stopped),
    ensures
        transition(phase, Signal::Stop).0 == Phase::Stopped(StopCause::Requested),
        closes(transition(phase, Signal::Stop).1),
        releases(transition(phase, Signal::Stop).1) <==> phase == Phase::Running,
{
}

/// The delivery channel is closed exactly once: by the signal that moves the
/// session into `Stopped`, and by no other.
pub proof fn lemma_close_once(phase: Phase, signal: Signal)
    ensures
        closes(transition(phase, signal).1) <==> (!(phase is Stopped) && transition(
            phase,
            signal,
        ).0 is Stopped),
{
}

/// `Stopped` is final and stopping again is harmless: in `Stopped` no signal
/// changes the phase, subscribes or closes, and the only release is that of
/// a handle that arrives late.
pub proof fn lemma_stopped_is_final(phase: Phase, signal: Signal)
    requires
        phase is Stopped,
    ensures
        transition(phase, signal).0 == phase,
        transition(phase, signal).1 == (if signal == Signal::Subscribed {
            Action::Release
        } else {
            Action::Nothing
        }),
{
}

/// The native handle is held exactly while the session runs: it is taken
/// only by moving from `Starting` to `Running`, every way out of `Running`
/// releases it, and a release happens only when leaving `Running` or for a
/// handle that nothing was waiting for.
pub proof fn lemma_handle_accounting(phase: Phase, signal: Signal)
    ensures
        ({
            let (next, action) = transition(phase, signal);
            &&& (next == Phase::Running && phase != Phase::Running) ==> (phase == Phase::Starting
                && signal == Signal::Subscribed && action == Action::Nothing)
            &&& (phase == Phase::Running && next != Phase::Running) ==> releases(action)
            &&& releases(action) ==> ((phase == Phase::Running && next is Stopped) || (signal
                == Signal::Subscribed && phase != Phase::Starting))
        }),
{
}

/// The resume id never moves down and is at least every id it has seen.
pub proof fn lemma_max_id_bounds(start: u64, ids: Seq<u64>)
    ensures
        max_id(start, ids) >= start,
        forall|i: int| 0 <= i < ids.len() ==> max_id(start, ids) >= #[trigger] ids[i],
        max_id(start, ids) == start || ids.contains(max_id(start, ids)),
    decreases ids.len(),
{
    if ids.len() > 0 {
        let rest = ids.drop_last();
        lemma_max_id_bounds(start, rest);
        assert forall|i: int| 0 <= i < ids.len() implies max_id(start, ids) >= #[trigger] ids[i] by {
            if i < ids.len() - 1 {
                assert(ids[i] == rest[i]);
            }
        }
        if max_id(start, rest) != start && max_id(start, ids) == max_id(start, rest) {
            let k = choose|k: int| 0 <= k < rest.len() && rest[k] == max_id(start, rest);
            assert(ids[k] == rest[k]);
        }
        if max_id(start, ids) != max_id(start, rest) {
            assert(ids[ids.len() - 1] == ids.last());
        }
    }
}

} // verus!

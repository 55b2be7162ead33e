//! The supervisor of a PPP network session: it brings a session up, runs
//! the link, backs off and reconnects after a failure, and obeys pause,
//! resume and shutdown requests.
//!
//! Pause and reconnect are the same mechanism: the session is torn down and
//! later dialed again from scratch. The status kept is the one of the last
//! session brought up, not a live reading.

use vstd::prelude::*;
use crate::quectel_atat::types::AuthenticationMethod;
use crate::ModemError;

verus! {

/// APN and credentials of the PDP context (always context 1).
#[derive(Clone, Copy, Debug)]
pub struct CellularNetworkConfig<'a> {
    pub apn: &'a str,
    pub user: &'a str,
    pub pass: &'a str,
    pub auth: AuthenticationMethod,
}

/// Last-known signal status, refreshed each time a session is brought up.
#[derive(Clone, Copy, Debug, PartialEq, Eq, Structural)]
pub struct NetworkStatus {
    pub rssi_dbm: i16,
    pub signal_percent: u8,
    /// Sessions brought up so far (the first connect counts as 1).
    pub session_count: u32,
}

impl Default for NetworkStatus {
    fn default() -> (s: Self)
        ensures
            s == (NetworkStatus { rssi_dbm: 0, signal_percent: 0, session_count: 0 }),
    {
        NetworkStatus { rssi_dbm: 0, signal_percent: 0, session_count: 0 }
    }
}

impl NetworkStatus {
    /// Record a session brought up with the given signal; returns the new
    /// session count.
    pub fn record_session(&mut self, rssi_dbm: i16, signal_percent: u8) -> (n: u32)
        requires
            old(self).session_count < u32::MAX,
        ensures
            final(self).rssi_dbm == rssi_dbm,
            final(self).signal_percent == signal_percent,
            final(self).session_count == old(self).session_count + 1,
            n == final(self).session_count,
    {
        self.rssi_dbm = rssi_dbm;
        self.signal_percent = signal_percent;
        self.session_count = self.session_count + 1;
        self.session_count
    }
}

/// How bringing a session up ended, as the status records it.
#[derive(Clone, Copy, Debug, PartialEq, Eq, Structural)]
pub enum SessionResult {
    /// The session is up, with the signal read while bringing it up.
    Connected { rssi_dbm: i16, signal_percent: u8 },
    /// Bringing it up failed, with the modem still at hand.
    Failed,
    /// Bringing the modem up failed for good.
    Unrecoverable,
}

/// The status after a session bring-up ended with `r`: a connected session
/// is counted and its signal kept; a failed one leaves the status as it was.
pub open spec fn status_after_session(st: NetworkStatus, r: SessionResult) -> NetworkStatus {
    match r {
        SessionResult::Connected { rssi_dbm, signal_percent } => NetworkStatus {
            rssi_dbm,
            signal_percent,
            session_count: (st.session_count + 1) as u32,
        },
        _ => st,
    }
}

impl NetworkStatus {
    /// Record how a session bring-up ended.
    pub fn record_outcome(&mut self, r: SessionResult)
        requires
            r is Connected ==> old(self).session_count < u32::MAX,
        ensures
            *final(self) == status_after_session(*old(self), r),
    {
        match r {
            SessionResult::Connected { rssi_dbm, signal_percent } => {
                self.record_session(rssi_dbm, signal_percent);
            },
            _ => {},
        }
    }
}

/// The status counts exactly the sessions that came up: a connected
/// bring-up adds one to the count and replaces the signal with the one read
/// in that session; a failed or unrecoverable one changes nothing.
pub proof fn law_status_counts_sessions(st: NetworkStatus, r: SessionResult)
    requires
        r is Connected ==> st.session_count < u32::MAX,
    ensures
        r matches SessionResult::Connected { rssi_dbm, signal_percent } ==> (
            status_after_session(st, r).session_count == st.session_count + 1
            && status_after_session(st, r).rssi_dbm == rssi_dbm
            && status_after_session(st, r).signal_percent == signal_percent),
        !(r is Connected) ==> status_after_session(st, r) == st,
{
}

/// Error of bringing the network up: from the modem or from opening the
/// serial port.
#[derive(Debug)]
pub enum CellularNetworkError<E> {
    Modem(ModemError),
    Serial(E),
}

impl<E> From<ModemError> for CellularNetworkError<E> {
    fn from(e: ModemError) -> (r: Self) {
        CellularNetworkError::Modem(e)
    }
}

impl<E> vstd::std_specs::convert::FromSpecImpl<ModemError> for CellularNetworkError<E> {
    open spec fn obeys_from_spec() -> bool {
        true
    }

    open spec fn from_spec(v: ModemError) -> Self {
        CellularNetworkError::Modem(v)
    }
}

/// A request to the supervisor.
#[derive(Clone, Copy, Debug, PartialEq, Eq, Structural)]
pub enum Control {
    Pause,
    Resume,
    Shutdown,
}

/// Seconds waited before the first reconnect.
pub const BACKOFF_INITIAL_S: u64 = 2;

/// Longest wait before a reconnect, in seconds.
pub const BACKOFF_MAX_S: u64 = 60;

/// The wait after one more failure: doubled, up to the maximum.
pub open spec fn next_backoff(b: u64) -> u64 {
    if 2 * b < BACKOFF_MAX_S {
        (2 * b) as u64
    } else {
        BACKOFF_MAX_S
    }
}

/// Where the supervisor is.
#[derive(Clone, Copy, Debug, PartialEq, Eq, Structural)]
pub enum SupervisorPhase {
    /// About to check for a shutdown request and bring a session up.
    Idle,
    /// Bringing a session up.
    Connecting,
    /// The PPP link is running.
    Running,
    /// Paused: waiting for a resume or a shutdown.
    Paused,
    /// Stopped for good.
    Stopped,
}

/// What the supervisor learned.
#[derive(Clone, Copy, Debug, PartialEq, Eq, Structural)]
pub enum SupervisorEvent {
    /// The request taken (if any) before a session is brought up.
    Polled(Option<Control>),
    /// The session is up.
    Connected,
    /// Bringing the session up failed, with the modem still at hand.
    SetupFailed,
    /// Bringing the modem up failed for good (its power pin is lost).
    Unrecoverable,
    /// The PPP link ended.
    LinkEnded,
    /// A request arrived while the link ran or while paused.
    Requested(Control),
}

/// What the driver does next.
#[derive(Clone, Copy, Debug, PartialEq, Eq, Structural)]
pub enum SupervisorAction {
    /// Bring a session up (power on, attach, dial) and report how it went.
    OpenSession,
    /// Run the PPP link until it ends or a request arrives.
    RunLink,
    /// Sleep this many seconds, then poll for a request.
    Sleep(u64),
    /// Wait for the next request.
    WaitRequest,
    /// Poll for a request now.
    Poll,
    /// Confirm the shutdown to its requester and stop.
    ConfirmShutdown,
    /// Stop without confirming anything.
    Stop,
}

/// The state of the supervisor: its phase and the wait before the next
/// reconnect, which stays between 2 and 60 seconds.
pub struct Supervisor {
    phase: SupervisorPhase,
    backoff_s: u64,
}

/// What the supervisor's state is made of.
pub struct SupervisorView {
    pub phase: SupervisorPhase,
    pub backoff_s: u64,
}

/// Where the supervisor goes on `e` from `s`, and what it does.
///
/// A shutdown request taken before a session, or arriving while the link
/// runs or while paused, is confirmed and stops the supervisor. A failed
/// session setup or an ended link sleeps for the current backoff, which
/// then doubles up to 60 s; a session brought up resets it to 2 s. A pause
/// waits until a resume (which reconnects) or a shutdown; a resume while
/// running drops the link and reconnects. An unrecoverable failure stops
/// without confirmation. Events that do not belong to the phase change
/// nothing, and a stopped supervisor stays stopped.
pub open spec fn supervisor_next(s: SupervisorView, e: SupervisorEvent) -> (
    SupervisorView,
    SupervisorAction,
) {
    let stay = (s, SupervisorAction::WaitRequest);
    let stopped = SupervisorView { phase: SupervisorPhase::Stopped, ..s };
    match (s.phase, e) {
        (SupervisorPhase::Idle, SupervisorEvent::Polled(c)) => if c == Some(Control::Shutdown) {
            (stopped, SupervisorAction::ConfirmShutdown)
        } else {
            (SupervisorView { phase: SupervisorPhase::Connecting, ..s }, SupervisorAction::OpenSession)
        },
        (SupervisorPhase::Connecting, SupervisorEvent::Connected) => (
            SupervisorView { phase: SupervisorPhase::Running, backoff_s: BACKOFF_INITIAL_S },
            SupervisorAction::RunLink,
        ),
        (SupervisorPhase::Connecting, SupervisorEvent::SetupFailed) => (
            SupervisorView { phase: SupervisorPhase::Idle, backoff_s: next_backoff(s.backoff_s) },
            SupervisorAction::Sleep(s.backoff_s),
        ),
        (SupervisorPhase::Connecting, SupervisorEvent::Unrecoverable) => (
            stopped,
            SupervisorAction::Stop,
        ),
        (SupervisorPhase::Running, SupervisorEvent::LinkEnded) => (
            SupervisorView { phase: SupervisorPhase::Idle, backoff_s: next_backoff(s.backoff_s) },
            SupervisorAction::Sleep(s.backoff_s),
        ),
        (SupervisorPhase::Running, SupervisorEvent::Requested(c)) => match c {
            Control::Shutdown => (stopped, SupervisorAction::ConfirmShutdown),
            Control::Pause => (
                SupervisorView { phase: SupervisorPhase::Paused, ..s },
                SupervisorAction::WaitRequest,
            ),
            Control::Resume => (
                SupervisorView { phase: SupervisorPhase::Idle, ..s },
                SupervisorAction::Poll,
            ),
        },
        (SupervisorPhase::Paused, SupervisorEvent::Requested(c)) => match c {
            Control::Shutdown => (stopped, SupervisorAction::ConfirmShutdown),
            Control::Pause => stay,
            Control::Resume => (
                SupervisorView { phase: SupervisorPhase::Idle, ..s },
                SupervisorAction::Poll,
            ),
        },
        (SupervisorPhase::Stopped, _) => (s, SupervisorAction::Stop),
        _ => stay,
    }
}

impl View for Supervisor {
    type V = SupervisorView;

    closed spec fn view(&self) -> SupervisorView {
        SupervisorView { phase: self.phase, backoff_s: self.backoff_s }
    }
}

/// The backoff always lies between its initial and its largest value.
pub open spec fn backoff_in_range(b: u64) -> bool {
    BACKOFF_INITIAL_S <= b <= BACKOFF_MAX_S
}

impl Supervisor {
    #[verifier::type_invariant]
    closed spec fn inv(&self) -> bool {
        backoff_in_range(self.backoff_s)
    }

    /// A supervisor at the top of its loop, with the initial backoff.
    pub fn new() -> (s: Self)
        ensures
            s@ == (SupervisorView { phase: SupervisorPhase::Idle, backoff_s: BACKOFF_INITIAL_S }),
    {
        Supervisor { phase: SupervisorPhase::Idle, backoff_s: BACKOFF_INITIAL_S }
    }

    /// The current phase.
    pub fn phase(&self) -> (p: SupervisorPhase)
        ensures
            p == self@.phase,
    {
        self.phase
    }

    /// The wait before the next reconnect, in seconds.
    pub fn backoff_s(&self) -> (b: u64)
        ensures
            b == self@.backoff_s,
            backoff_in_range(b),
    {
        proof {
            use_type_invariant(self);
        }
        self.backoff_s
    }

    /// Take event `e`; returns what to do next.
    pub fn step(&mut self, e: SupervisorEvent) -> (a: SupervisorAction)
        ensures
            (final(self)@, a) == supervisor_next(old(self)@, e),
    {
        proof {
            use_type_invariant(&*self);
        }
        let b = self.backoff_s;
        let next = if b < BACKOFF_MAX_S / 2 {
            2 * b
        } else {
            BACKOFF_MAX_S
        };
        match (self.phase, e) {
            (SupervisorPhase::Idle, SupervisorEvent::Polled(c)) => {
                if c == Some(Control::Shutdown) {
                    self.phase = SupervisorPhase::Stopped;
                    SupervisorAction::ConfirmShutdown
                } else {
                    self.phase = SupervisorPhase::Connecting;
                    SupervisorAction::OpenSession
                }
            },
            (SupervisorPhase::Connecting, SupervisorEvent::Connected) => {
                self.phase = SupervisorPhase::Running;
                self.backoff_s = BACKOFF_INITIAL_S;
                SupervisorAction::RunLink
            },
            (SupervisorPhase::Connecting, SupervisorEvent::SetupFailed) => {
                self.phase = SupervisorPhase::Idle;
                self.backoff_s = next;
                SupervisorAction::Sleep(b)
            },
            (SupervisorPhase::Connecting, SupervisorEvent::Unrecoverable) => {
                self.phase = SupervisorPhase::Stopped;
                SupervisorAction::Stop
            },
            (SupervisorPhase::Running, SupervisorEvent::LinkEnded) => {
                self.phase = SupervisorPhase::Idle;
                self.backoff_s = next;
                SupervisorAction::Sleep(b)
            },
            (SupervisorPhase::Running, SupervisorEvent::Requested(c)) => match c {
                Control::Shutdown => {
                    self.phase = SupervisorPhase::Stopped;
                    SupervisorAction::ConfirmShutdown
                },
                Control::Pause => {
                    self.phase = SupervisorPhase::Paused;
                    SupervisorAction::WaitRequest
                },
                Control::Resume => {
                    self.phase = SupervisorPhase::Idle;
                    SupervisorAction::Poll
                },
            },
            (SupervisorPhase::Paused, SupervisorEvent::Requested(c)) => match c {
                Control::Shutdown => {
                    self.phase = SupervisorPhase::Stopped;
                    SupervisorAction::ConfirmShutdown
                },
                Control::Pause => SupervisorAction::WaitRequest,
                Control::Resume => {
                    self.phase = SupervisorPhase::Idle;
                    SupervisorAction::Poll
                },
            },
            (SupervisorPhase::Stopped, _) => SupervisorAction::Stop,
            _ => SupervisorAction::WaitRequest,
        }
    }
}

/// Every step keeps the backoff between 2 and 60 seconds, and the waits
/// the supervisor asks for never exceed 60 seconds.
pub proof fn law_backoff_bounded(s: SupervisorView, e: SupervisorEvent)
    requires
        backoff_in_range(s.backoff_s),
    ensures
        backoff_in_range(supervisor_next(s, e).0.backoff_s),
        supervisor_next(s, e).1 matches SupervisorAction::Sleep(t) ==> t <= BACKOFF_MAX_S,
{
}

/// Consecutive failures double the wait until it reaches 60 seconds.
pub proof fn law_backoff_doubles(s: SupervisorView)
    requires
        s.phase == SupervisorPhase::Connecting,
        backoff_in_range(s.backoff_s),
    ensures
        supervisor_next(s, SupervisorEvent::SetupFailed) == (
            SupervisorView {
                phase: SupervisorPhase::Idle,
                backoff_s: if 2 * s.backoff_s <= BACKOFF_MAX_S {
                    (2 * s.backoff_s) as u64
                } else {
                    BACKOFF_MAX_S
                },
            },
            SupervisorAction::Sleep(s.backoff_s),
        ),
{
}

/// A session brought up resets the wait to its initial value.
pub proof fn law_connect_resets_backoff(s: SupervisorView)
    requires
        s.phase == SupervisorPhase::Connecting,
    ensures
        supervisor_next(s, SupervisorEvent::Connected).0.backoff_s == BACKOFF_INITIAL_S,
{
}

/// A shutdown request that the supervisor sees is confirmed and stops it,
/// whether it is idle, running or paused; once stopped it stays stopped.
pub proof fn law_shutdown_stops(s: SupervisorView, e: SupervisorEvent)
    ensures
        s.phase == SupervisorPhase::Idle ==> supervisor_next(
            s,
            SupervisorEvent::Polled(Some(Control::Shutdown)),
        ) == (SupervisorView { phase: SupervisorPhase::Stopped, ..s }, SupervisorAction::ConfirmShutdown),
        (s.phase == SupervisorPhase::Running || s.phase == SupervisorPhase::Paused)
            ==> supervisor_next(s, SupervisorEvent::Requested(Control::Shutdown)) == (
            SupervisorView { phase: SupervisorPhase::Stopped, ..s },
            SupervisorAction::ConfirmShutdown,
        ),
        s.phase == SupervisorPhase::Stopped ==> supervisor_next(s, e).0.phase
            == SupervisorPhase::Stopped,
{
}

/// While paused, only a resume or a shutdown leaves the pause; a resume
/// always reconnects from scratch.
pub proof fn law_pause_until_resume(s: SupervisorView, e: SupervisorEvent)
    requires
        s.phase == SupervisorPhase::Paused,
    ensures
        supervisor_next(s, e).0.phase != SupervisorPhase::Paused ==> e == SupervisorEvent::Requested(
            Control::Resume,
        ) || e == SupervisorEvent::Requested(Control::Shutdown),
        supervisor_next(s, SupervisorEvent::Requested(Control::Resume)).0.phase
            == SupervisorPhase::Idle,
{
}

} // verus!

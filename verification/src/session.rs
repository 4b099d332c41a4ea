//! Login sessions that expire 24 hours after they were opened.
use std::time::{SystemTime, UNIX_EPOCH};
use vstd::prelude::*;

verus! {

/// Nanoseconds in one second.
pub const NANOS_PER_SEC: u32 = 1_000_000_000;

/// How long a session lasts: 24 hours, in seconds.
pub const SESSION_LIFETIME_SECS: i128 = 86_400;

/// A reading of the system clock, as `SystemTime::duration_since(UNIX_EPOCH)`
/// gives it: seconds and nanoseconds after the epoch, or before it when the
/// clock is set earlier.
#[derive(Debug, Clone, Copy)]
pub enum ClockReading {
    AfterEpoch(u64, u32),
    BeforeEpoch(u64, u32),
}

/// An instant, as whole seconds relative to the Unix epoch (negative before
/// it) plus the nanoseconds within that second.
#[derive(Debug, Clone, Copy)]
pub struct Timestamp {
    pub secs: i128,
    pub nanos: u32,
}

/// `SystemTime::now().duration_since(UNIX_EPOCH)`, the duration split into
/// `as_secs` and `subsec_nanos`. The contract claims only what `Duration`
/// documents of every outcome: the nanoseconds are below one billion. Which
/// instant is read depends on the machine's clock.
#[verifier::external_body]
fn read_system_clock() -> (r: ClockReading)
    ensures
        match r {
            ClockReading::AfterEpoch(_, n) => n < NANOS_PER_SEC,
            ClockReading::BeforeEpoch(_, n) => n < NANOS_PER_SEC,
        },
{
    match SystemTime::now().duration_since(UNIX_EPOCH) {
        Ok(d) => ClockReading::AfterEpoch(d.as_secs(), d.subsec_nanos()),
        Err(e) => ClockReading::BeforeEpoch(e.duration().as_secs(), e.duration().subsec_nanos()),
    }
}

impl ClockReading {
    /// The signed number of nanoseconds from the epoch that the reading stands for.
    pub open spec fn offset_nanos(&self) -> int {
        match self {
            ClockReading::AfterEpoch(s, n) => *s * NANOS_PER_SEC + *n,
            ClockReading::BeforeEpoch(s, n) => -(*s * NANOS_PER_SEC + *n),
        }
    }

    pub open spec fn wf(&self) -> bool {
        match self {
            ClockReading::AfterEpoch(_, n) => *n < NANOS_PER_SEC,
            ClockReading::BeforeEpoch(_, n) => *n < NANOS_PER_SEC,
        }
    }
}

impl Timestamp {
    pub open spec fn wf(&self) -> bool {
        self.nanos < NANOS_PER_SEC
    }

    /// The signed number of nanoseconds from the epoch.
    pub open spec fn total_nanos(&self) -> int {
        self.secs * NANOS_PER_SEC + self.nanos
    }

    /// Whether `self` comes strictly after `other`, comparing seconds first.
    pub open spec fn is_after(&self, other: Timestamp) -> bool {
        ||| self.secs > other.secs
        ||| self.secs == other.secs && self.nanos > other.nanos
    }

    /// The instant that a clock reading stands for.
    pub fn from_clock(reading: ClockReading) -> (t: Timestamp)
        requires
            reading.wf(),
        ensures
            t.wf(),
            t.total_nanos() == reading.offset_nanos(),
            -(u64::MAX as int) - 1 <= t.secs <= u64::MAX,
    {
        match reading {
            ClockReading::AfterEpoch(s, n) => Timestamp { secs: s as i128, nanos: n },
            ClockReading::BeforeEpoch(s, n) => {
                if n == 0 {
                    Timestamp { secs: -(s as i128), nanos: 0 }
                } else {
                    Timestamp { secs: -(s as i128) - 1, nanos: NANOS_PER_SEC - n }
                }
            },
        }
    }

    /// An instant that the system clock can report: well formed, and within
    /// `u64::MAX` seconds of the epoch on either side.
    pub open spec fn is_clock_instant(&self) -> bool {
        &&& self.wf()
        &&& -(u64::MAX as int) - 1 <= self.secs <= u64::MAX
    }

    /// The current instant of the system clock.
    pub fn now() -> (t: Timestamp)
        ensures
            t.is_clock_instant(),
    {
        Timestamp::from_clock(read_system_clock())
    }

    /// Whether `self` comes strictly after `other`.
    pub fn after(&self, other: &Timestamp) -> (r: bool)
        ensures
            r == self.is_after(*other),
    {
        self.secs > other.secs || (self.secs == other.secs && self.nanos > other.nanos)
    }
}

/// For well-formed instants, coming after is having more nanoseconds.
pub proof fn lemma_is_after_total(a: Timestamp, b: Timestamp)
    requires
        a.wf(),
        b.wf(),
    ensures
        a.is_after(b) <==> a.total_nanos() > b.total_nanos(),
{
    if a.secs > b.secs {
        assert(a.secs * NANOS_PER_SEC >= (b.secs + 1) * NANOS_PER_SEC) by (nonlinear_arith)
            requires a.secs >= b.secs + 1;
    } else if a.secs < b.secs {
        assert(b.secs * NANOS_PER_SEC >= (a.secs + 1) * NANOS_PER_SEC) by (nonlinear_arith)
            requires b.secs >= a.secs + 1;
    }
}

/// A login session of a user.
#[derive(Debug)]
pub struct Session {
    pub user_id: i32,
    pub email: String,
    pub expires_at: Timestamp,
}

impl Session {
    /// Opens a session for the user that lasts 24 hours from the current
    /// instant of the system clock.
    pub fn new(user_id: i32, email: String) -> (s: Session)
        ensures
            s.user_id == user_id,
            s.email == email,
            s.expires_at.wf(),
            exists|now: Timestamp|
                #[trigger] now.is_clock_instant() && s.expires_at.secs == now.secs
                    + SESSION_LIFETIME_SECS && s.expires_at.nanos == now.nanos,
    {
        let now = Timestamp::now();
        Session::new_at(user_id, email, now)
    }

    /// Opens a session for the user at the instant `now`: it expires 24 hours later.
    pub fn new_at(user_id: i32, email: String, now: Timestamp) -> (s: Session)
        requires
            now.secs + SESSION_LIFETIME_SECS <= i128::MAX,
        ensures
            s.user_id == user_id,
            s.email == email,
            s.expires_at.secs == now.secs + SESSION_LIFETIME_SECS,
            s.expires_at.nanos == now.nanos,
            s.expires_at.total_nanos() == now.total_nanos() + SESSION_LIFETIME_SECS * NANOS_PER_SEC,
    {
        Session {
            user_id,
            email,
            expires_at: Timestamp { secs: now.secs + SESSION_LIFETIME_SECS, nanos: now.nanos },
        }
    }

    /// Whether the session has expired at the current instant of the system
    /// clock: whether that instant is strictly after the expiry instant.
    pub fn is_expired(&self) -> (r: bool)
        ensures
            exists|now: Timestamp|
                #[trigger] now.is_clock_instant() && r == now.is_after(self.expires_at),
    {
        let now = Timestamp::now();
        self.is_expired_at(&now)
    }

    /// Whether the session has expired at the instant `now`: strictly after
    /// its expiry instant.
    pub fn is_expired_at(&self, now: &Timestamp) -> (r: bool)
        ensures
            r == now.is_after(self.expires_at),
    {
        now.after(&self.expires_at)
    }
}

/// A session opened at `now` has expired at instant `t` exactly when `t` is
/// more than 24 hours after `now`; in particular it has not expired when it
/// is opened.
pub proof fn lemma_session_lifetime(now: Timestamp, t: Timestamp, s: Session)
    requires
        now.wf(),
        t.wf(),
        s.expires_at.secs == now.secs + SESSION_LIFETIME_SECS,
        s.expires_at.nanos == now.nanos,
    ensures
        t.is_after(s.expires_at) <==> t.total_nanos() > now.total_nanos()
            + SESSION_LIFETIME_SECS * NANOS_PER_SEC,
        !now.is_after(s.expires_at),
{
    lemma_is_after_total(t, s.expires_at);
    lemma_is_after_total(now, s.expires_at);
}

} // verus!

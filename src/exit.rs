use vstd::prelude::*;

verus! {

/// A point in time, as seconds since the Unix epoch and nanoseconds past
/// that second. The nanoseconds run past one second only during a leap
/// second.
#[derive(Clone, Copy, Debug, PartialEq, Eq, Structural)]
pub struct Timestamp {
    pub secs: i64,
    pub nanos: u32,
}

impl Timestamp {
    pub open spec fn wf(self) -> bool {
        self.nanos < 2_000_000_000
    }
}

/// How a guest process ended: its exit code and when that was observed.
#[derive(Clone, Copy, Debug, PartialEq, Eq, Structural)]
pub struct ExitStatus {
    pub code: u32,
    pub at: Timestamp,
}

/// Relies on chrono's `Utc::now` to read the clock, and on
/// `DateTime::timestamp` and `DateTime::timestamp_subsec_nanos` to take it
/// apart. The sub-second part is the time of day's nanosecond field, which
/// chrono keeps below 2_000_000_000 (the upper half marks a leap second).
/// `Utc::now` panics only on a clock set before the Unix epoch.
#[verifier::external_body]
pub(crate) fn utc_now() -> (t: Timestamp)
    ensures
        t.wf(),
{
    let now = chrono::Utc::now();
    Timestamp { secs: now.timestamp(), nanos: now.timestamp_subsec_nanos() }
}

/// The state of a publication: unchanged once set, set by the first
/// publication otherwise.
pub open spec fn publish_spec(s: Option<ExitStatus>, st: ExitStatus) -> Option<ExitStatus> {
    match s {
        Some(_) => s,
        None => Some(st),
    }
}

/// The state reached from `s` by publishing each of `pubs` in order.
pub open spec fn state_after(s: Option<ExitStatus>, pubs: Seq<ExitStatus>) -> Option<ExitStatus>
    decreases pubs.len(),
{
    if pubs.len() == 0 {
        s
    } else {
        state_after(publish_spec(s, pubs[0]), pubs.drop_first())
    }
}

/// The exit state of an instance. It starts empty and is set once: the
/// first publication wins and later ones leave it as it is.
pub struct ExitState {
    status: Option<ExitStatus>,
}

impl View for ExitState {
    type V = Option<ExitStatus>;

    closed spec fn view(&self) -> Option<ExitStatus> {
        self.status
    }
}

impl ExitState {
    /// An exit state with nothing published.
    pub fn new() -> (r: ExitState)
        ensures
            r@ is None,
    {
        ExitState { status: None }
    }

    /// Publishes `st` unless a status is already there. Returns whether
    /// this call was the one that set it.
    pub fn publish(&mut self, st: ExitStatus) -> (r: bool)
        ensures
            final(self)@ == publish_spec(old(self)@, st),
            r == (old(self)@ is None),
    {
        if self.status.is_some() {
            false
        } else {
            self.status = Some(st);
            true
        }
    }

    /// What a waiter observes now: the published status, if any.
    pub fn published(&self) -> (r: Option<ExitStatus>)
        ensures
            r == self@,
    {
        self.status
    }
}

/// Once a status has been published, further publications leave it as it
/// is: a waiter that looks before any later publication and one that looks
/// after it read the same status.
pub proof fn lemma_published_is_stable(s: Option<ExitStatus>, pubs: Seq<ExitStatus>)
    requires
        s is Some,
    ensures
        state_after(s, pubs) == s,
    decreases pubs.len(),
{
    if pubs.len() > 0 {
        lemma_published_is_stable(publish_spec(s, pubs[0]), pubs.drop_first());
    }
}

/// Starting from an empty state, every moment at or after the first
/// publication shows that first status, however many publications follow.
pub proof fn lemma_first_publication_wins(pubs: Seq<ExitStatus>, i: int)
    requires
        1 <= i <= pubs.len(),
    ensures
        state_after(None, pubs.take(i)) == Some(pubs[0]),
{
    let p = pubs.take(i);
    assert(p[0] == pubs[0]);
    lemma_published_is_stable(Some(pubs[0]), p.drop_first());
}

} // verus!

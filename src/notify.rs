use vstd::prelude::*;
use crate::exit::{ExitState, ExitStatus, publish_spec};

verus! {

/// What the waiters of an instance have to do with its exit: the status,
/// once published, and the waiters still waiting for it.
pub struct NotifyModel {
    pub status: Option<ExitStatus>,
    pub pending: Seq<u64>,
}

/// An event seen by the waiter registry.
pub enum WaitEvent {
    /// The waiter with this id asks for the exit status.
    Register(u64),
    /// The exit status is published.
    Publish(ExitStatus),
}

/// Every pending waiter, paired with the status it is handed.
pub open spec fn deliver_all(pending: Seq<u64>, st: ExitStatus) -> Seq<(u64, ExitStatus)> {
    pending.map_values(|w: u64| (w, st))
}

/// The registry after one event, and the deliveries that event causes.
pub open spec fn notify_step(m: NotifyModel, e: WaitEvent) -> (NotifyModel, Seq<(u64, ExitStatus)>) {
    match e {
        WaitEvent::Register(w) => match m.status {
            Some(st) => (m, seq![(w, st)]),
            None => (NotifyModel { status: None, pending: m.pending.push(w) }, Seq::empty()),
        },
        WaitEvent::Publish(st) => match m.status {
            Some(_) => (m, Seq::empty()),
            None => (
                NotifyModel { status: Some(st), pending: Seq::empty() },
                deliver_all(m.pending, st),
            ),
        },
    }
}

/// The registry after a sequence of events, and all deliveries made on
/// the way, in order.
pub open spec fn notify_run(m: NotifyModel, es: Seq<WaitEvent>) -> (NotifyModel, Seq<(u64, ExitStatus)>)
    decreases es.len(),
{
    if es.len() == 0 {
        (m, Seq::empty())
    } else {
        let (m1, d1) = notify_step(m, es[0]);
        let (m2, d2) = notify_run(m1, es.drop_first());
        (m2, d1 + d2)
    }
}

/// The status the first publication among `es` carries, from `s` on.
pub open spec fn first_status(s: Option<ExitStatus>, es: Seq<WaitEvent>) -> Option<ExitStatus>
    decreases es.len(),
{
    if s is Some || es.len() == 0 {
        s
    } else {
        match es[0] {
            WaitEvent::Publish(st) => Some(st),
            WaitEvent::Register(_) => first_status(s, es.drop_first()),
        }
    }
}

/// No waiter is left waiting once the status is published.
pub open spec fn notify_wf(m: NotifyModel) -> bool {
    m.status is Some ==> m.pending.len() == 0
}

/// However registrations and publications interleave, every waiter is
/// handed the same status, the first one published; once a status is
/// published no waiter is left pending, and the registry holds that
/// status.
pub proof fn lemma_waiters_get_first_status(m: NotifyModel, es: Seq<WaitEvent>)
    requires
        notify_wf(m),
    ensures
        notify_run(m, es).0.status == first_status(m.status, es),
        notify_wf(notify_run(m, es).0),
        forall|i: int|
            0 <= i < notify_run(m, es).1.len() ==> Some(#[trigger] notify_run(m, es).1[i].1)
                == first_status(m.status, es),
    decreases es.len(),
{
    if es.len() > 0 {
        let (m1, d1) = notify_step(m, es[0]);
        lemma_waiters_get_first_status(m1, es.drop_first());
        let (m2, d2) = notify_run(m1, es.drop_first());
        assert(first_status(m1.status, es.drop_first()) == first_status(m.status, es)) by {
            if m.status is None {
                match es[0] {
                    WaitEvent::Publish(st) => {
                        assert(first_status(m1.status, es.drop_first()) == m1.status);
                    },
                    WaitEvent::Register(_) => {},
                }
            }
        }
        assert forall|i: int| 0 <= i < d1.len() implies Some(#[trigger] d1[i].1) == first_status(
            m.status,
            es,
        ) by {}
        let d = d1 + d2;
        assert forall|i: int| 0 <= i < d.len() implies Some(#[trigger] d[i].1) == first_status(
            m.status,
            es,
        ) by {
            if i >= d1.len() {
                assert(d[i] == d2[i - d1.len()]);
            }
        }
    }
}

/// The exit state of an instance together with the waiters registered
/// before it was published.
pub struct ExitNotifier {
    exit: ExitState,
    pending: Vec<u64>,
}

impl View for ExitNotifier {
    type V = NotifyModel;

    closed spec fn view(&self) -> NotifyModel {
        NotifyModel { status: self.exit@, pending: self.pending@ }
    }
}

impl ExitNotifier {
    /// Nothing published, no one waiting.
    pub fn new() -> (r: ExitNotifier)
        ensures
            r@.status is None,
            r@.pending.len() == 0,
    {
        ExitNotifier { exit: ExitState::new(), pending: Vec::new() }
    }

    /// The published status, if any.
    pub fn published(&self) -> (r: Option<ExitStatus>)
        ensures
            r == self@.status,
    {
        self.exit.published()
    }

    /// Registers waiter `w`. Once a status is published it is returned at
    /// once; before that the waiter is queued and nothing is returned.
    pub fn register(&mut self, w: u64) -> (r: Option<ExitStatus>)
        ensures
            final(self)@ == notify_step(old(self)@, WaitEvent::Register(w)).0,
            r == old(self)@.status,
    {
        match self.exit.published() {
            Some(st) => Some(st),
            None => {
                self.pending.push(w);
                None
            },
        }
    }

    /// Publishes `st` unless a status is already there. The first time,
    /// every queued waiter is handed `st`, in the order they registered,
    /// and `Some` of those deliveries is returned; later calls change
    /// nothing and return `None`.
    pub fn publish(&mut self, st: ExitStatus) -> (r: Option<Vec<(u64, ExitStatus)>>)
        ensures
            final(self)@ == notify_step(old(self)@, WaitEvent::Publish(st)).0,
            final(self)@.status == publish_spec(old(self)@.status, st),
            old(self)@.status is Some ==> r is None,
            old(self)@.status is None ==> (r matches Some(d) && d@ == notify_step(
                old(self)@,
                WaitEvent::Publish(st),
            ).1),
    {
        if self.exit.published().is_some() {
            return None;
        }
        self.exit.publish(st);
        let mut out: Vec<(u64, ExitStatus)> = Vec::new();
        let mut i: usize = 0;
        while i < self.pending.len()
            invariant
                i <= self.pending@.len(),
                out@ == deliver_all(self.pending@.take(i as int), st),
            decreases self.pending@.len() - i,
        {
            out.push((self.pending[i], st));
            proof {
                assert(self.pending@.take(i + 1) == self.pending@.take(i as int).push(
                    self.pending@[i as int],
                ));
            }
            i = i + 1;
        }
        proof {
            assert(self.pending@.take(i as int) == self.pending@);
        }
        self.pending = Vec::new();
        Some(out)
    }
}

} // verus!

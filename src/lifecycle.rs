use vstd::prelude::*;
use crate::exit::{ExitStatus, publish_spec};
use crate::notify::{ExitNotifier, NotifyModel, WaitEvent, notify_step, notify_wf};

verus! {

/// Where an instance stands in its life.
#[derive(Clone, Copy, Debug, PartialEq, Eq, Structural)]
pub enum Phase {
    /// Constructed; may be started.
    Created,
    /// A start is under way: the container is being built and launched.
    Starting,
    /// The guest process runs under the given pid.
    Running { pid: u32 },
    /// The guest process has ended and its status is published.
    Exited,
    /// The on-disk runtime state has been removed.
    Deleted,
}

/// Errors of the instance lifecycle.
#[derive(Debug, PartialEq, Eq)]
pub enum LifecycleError {
    /// `start` on an instance that was already started.
    AlreadyStarted,
    /// `kill` on an instance whose process is not running.
    NotRunning,
    /// `delete` on an instance whose process may still run.
    StillRunning,
    /// Building or launching the container failed; the message says why.
    Build(String),
    /// Removing the on-disk runtime state failed; the message says why.
    Removal(String),
}

/// What removing an instance's on-disk runtime state came to.
pub enum Removal {
    Removed,
    NotFound,
    Failed(String),
}

/// The events that move an instance between phases.
pub enum Event {
    /// A start is requested.
    BeginStart,
    /// The launch claimed by a start produced a process with this pid.
    Launched(u32),
    /// The launch claimed by a start failed.
    LaunchFailed,
    /// The guest process ended.
    Exit,
    /// The on-disk state is to be removed, and was removed or was absent.
    Delete,
}

/// May the on-disk state of an instance in phase `p` be removed?
pub open spec fn delete_allowed(p: Phase) -> bool {
    !(p is Starting || p is Running)
}

/// The phase an event moves `p` to. An event that does not apply to `p`
/// leaves it as it is.
pub open spec fn step(p: Phase, e: Event) -> Phase {
    match e {
        Event::BeginStart => if p is Created { Phase::Starting } else { p },
        Event::Launched(pid) => if p is Starting { Phase::Running { pid } } else { p },
        Event::LaunchFailed => if p is Starting { Phase::Created } else { p },
        Event::Exit => if p is Running { Phase::Exited } else { p },
        Event::Delete => if delete_allowed(p) { Phase::Deleted } else { p },
    }
}

/// The phase reached from `p` through the events `es` in order.
pub open spec fn run(p: Phase, es: Seq<Event>) -> Phase
    decreases es.len(),
{
    if es.len() == 0 {
        p
    } else {
        run(step(p, es[0]), es.drop_first())
    }
}

/// Has the instance been launched, so that it may never start again?
pub open spec fn launched(p: Phase) -> bool {
    p is Running || p is Exited || p is Deleted
}

/// Once launched, an instance stays launched through any events.
proof fn lemma_launched_stays(p: Phase, es: Seq<Event>)
    requires
        launched(p),
    ensures
        launched(run(p, es)),
    decreases es.len(),
{
    if es.len() > 0 {
        lemma_launched_stays(step(p, es[0]), es.drop_first());
    }
}

/// A start is granted at most once per launch: after an instance has been
/// launched, whatever events follow, a further start request is refused and
/// changes nothing, so no container is built for it.
pub proof fn lemma_no_second_start(es: Seq<Event>, i: int, j: int)
    requires
        0 <= i <= j <= es.len(),
        launched(run(Phase::Created, es.take(i))),
    ensures
        !(run(Phase::Created, es.take(j)) is Created),
        step(run(Phase::Created, es.take(j)), Event::BeginStart) == run(
            Phase::Created,
            es.take(j),
        ),
{
    lemma_run_split(Phase::Created, es.take(j), i);
    assert(es.take(j).take(i) == es.take(i));
    lemma_launched_stays(run(Phase::Created, es.take(i)), es.take(j).skip(i));
}

/// Running through a sequence of events is running through its first `i`
/// events and then through the rest.
proof fn lemma_run_split(p: Phase, es: Seq<Event>, i: int)
    requires
        0 <= i <= es.len(),
    ensures
        run(p, es) == run(run(p, es.take(i)), es.skip(i)),
    decreases i,
{
    if i > 0 {
        lemma_run_split(step(p, es[0]), es.drop_first(), i - 1);
        assert(es.take(i).drop_first() == es.drop_first().take(i - 1));
        assert(es.skip(i) == es.drop_first().skip(i - 1));
    } else {
        assert(es.skip(0) == es);
    }
}

/// Deleting is idempotent: an instance whose process does not run is
/// deleted by one removal, and a second one, which finds the state already
/// absent, succeeds and leaves it deleted.
pub proof fn lemma_delete_idempotent(p: Phase)
    requires
        delete_allowed(p),
    ensures
        step(p, Event::Delete) == Phase::Deleted,
        delete_allowed(step(p, Event::Delete)),
        step(step(p, Event::Delete), Event::Delete) == Phase::Deleted,
{
}

/// The lifecycle decisions of one instance together with its exit state.
pub struct Lifecycle {
    phase: Phase,
    exit: ExitNotifier,
}

impl Lifecycle {
    pub closed spec fn phase_spec(&self) -> Phase {
        self.phase
    }

    pub closed spec fn exit_model(&self) -> NotifyModel {
        self.exit@
    }

    pub open spec fn exit_spec(&self) -> Option<ExitStatus> {
        self.exit_model().status
    }

    /// A published status exists exactly when the process has exited, or
    /// exited before the state was deleted.
    pub open spec fn wf(&self) -> bool {
        &&& notify_wf(self.exit_model())
        &&& match self.phase_spec() {
            Phase::Created | Phase::Starting | Phase::Running { .. } => self.exit_spec() is None,
            Phase::Exited => self.exit_spec() is Some,
            Phase::Deleted => true,
        }
    }

    /// A fresh instance: created, with nothing published.
    pub fn new() -> (r: Lifecycle)
        ensures
            r.phase_spec() == Phase::Created,
            r.exit_spec() is None,
            r.exit_model().pending.len() == 0,
            r.wf(),
    {
        Lifecycle { phase: Phase::Created, exit: ExitNotifier::new() }
    }

    pub fn phase(&self) -> (r: Phase)
        ensures
            r == self.phase_spec(),
    {
        self.phase
    }

    /// Claims the start of this instance. Succeeds only on a created
    /// instance, which is then marked as starting; the caller builds and
    /// launches the container only after this succeeded. Any other phase
    /// is left as it is.
    pub fn begin_start(&mut self) -> (r: Result<(), LifecycleError>)
        ensures
            old(self).phase_spec() == Phase::Created ==> r is Ok && final(self).phase_spec()
                == Phase::Starting,
            old(self).phase_spec() != Phase::Created ==> r == Err::<(), LifecycleError>(
                LifecycleError::AlreadyStarted,
            ) && final(self).phase_spec() == old(self).phase_spec(),
            final(self).phase_spec() == step(old(self).phase_spec(), Event::BeginStart),
            final(self).exit_model() == old(self).exit_model(),
            old(self).wf() ==> final(self).wf(),
    {
        match self.phase {
            Phase::Created => {
                self.phase = Phase::Starting;
                Ok(())
            },
            _ => Err(LifecycleError::AlreadyStarted),
        }
    }

    /// Records how the launch claimed by `begin_start` went: on a pid the
    /// instance runs, and that pid is returned; on a failure it is created
    /// again, so that a later start may retry.
    pub fn finish_start(&mut self, launched: Result<u32, String>) -> (r: Result<u32, LifecycleError>)
        requires
            old(self).phase_spec() == Phase::Starting,
        ensures
            final(self).exit_model() == old(self).exit_model(),
            old(self).wf() ==> final(self).wf(),
            final(self).phase_spec() == step(
                old(self).phase_spec(),
                match launched {
                    Ok(pid) => Event::Launched(pid),
                    Err(_) => Event::LaunchFailed,
                },
            ),
            match launched {
                Ok(pid) => r == Ok::<u32, LifecycleError>(pid) && final(self).phase_spec()
                    == (Phase::Running { pid }),
                Err(msg) => r == Err::<u32, LifecycleError>(LifecycleError::Build(msg))
                    && final(self).phase_spec() == Phase::Created,
            },
    {
        match launched {
            Ok(pid) => {
                self.phase = Phase::Running { pid };
                Ok(pid)
            },
            Err(msg) => {
                self.phase = Phase::Created;
                Err(LifecycleError::Build(msg))
            },
        }
    }

    /// Decides whether a signal may be delivered: only to a running
    /// process, whose pid is returned.
    pub fn kill(&self) -> (r: Result<u32, LifecycleError>)
        ensures
            match self.phase_spec() {
                Phase::Running { pid } => r == Ok::<u32, LifecycleError>(pid),
                _ => r == Err::<u32, LifecycleError>(LifecycleError::NotRunning),
            },
    {
        match self.phase {
            Phase::Running { pid } => Ok(pid),
            _ => Err(LifecycleError::NotRunning),
        }
    }

    /// Takes in the end of the guest process. A running instance becomes
    /// exited and its status is published, which hands it to every queued
    /// waiter: those deliveries are returned. In any other phase, or when
    /// a status was already there, nothing is published and `None` comes
    /// back.
    pub fn on_exit(&mut self, st: ExitStatus) -> (r: Option<Vec<(u64, ExitStatus)>>)
        ensures
            final(self).phase_spec() == step(old(self).phase_spec(), Event::Exit),
            old(self).phase_spec() is Running ==> final(self).exit_model() == notify_step(
                old(self).exit_model(),
                WaitEvent::Publish(st),
            ).0,
            old(self).phase_spec() is Running ==> final(self).exit_spec() == publish_spec(
                old(self).exit_spec(),
                st,
            ),
            old(self).phase_spec() is Running && old(self).exit_spec() is None ==> (r matches Some(
                d,
            ) && d@ == notify_step(old(self).exit_model(), WaitEvent::Publish(st)).1),
            !(old(self).phase_spec() is Running && old(self).exit_spec() is None) ==> r is None,
            !(old(self).phase_spec() is Running) ==> final(self).exit_model()
                == old(self).exit_model(),
            old(self).wf() ==> final(self).wf(),
            old(self).wf() && old(self).phase_spec() is Running ==> r is Some
                && final(self).exit_spec() == Some(st),
    {
        match self.phase {
            Phase::Running { .. } => {
                self.phase = Phase::Exited;
                self.exit.publish(st)
            },
            _ => None,
        }
    }

    /// Registers waiter `w`: the published status comes back at once if
    /// there is one; otherwise the waiter is queued until the exit.
    pub fn register_waiter(&mut self, w: u64) -> (r: Option<ExitStatus>)
        ensures
            final(self).phase_spec() == old(self).phase_spec(),
            final(self).exit_model() == notify_step(old(self).exit_model(), WaitEvent::Register(w)).0,
            r == old(self).exit_spec(),
            old(self).wf() ==> final(self).wf(),
    {
        self.exit.register(w)
    }

    /// What a waiter observes now: the published exit status, if any.
    pub fn wait(&self) -> (r: Option<ExitStatus>)
        ensures
            r == self.exit_spec(),
    {
        self.exit.published()
    }

    /// Decides whether the on-disk state may be removed: not while a start
    /// is under way or the process runs. Nothing changes here.
    pub fn begin_delete(&self) -> (r: Result<(), LifecycleError>)
        ensures
            !delete_allowed(self.phase_spec()) ==> r == Err::<(), LifecycleError>(
                LifecycleError::StillRunning,
            ),
            delete_allowed(self.phase_spec()) ==> r is Ok,
    {
        match self.phase {
            Phase::Starting | Phase::Running { .. } => Err(LifecycleError::StillRunning),
            _ => Ok(()),
        }
    }

    /// Records how removing the on-disk state went. State that was already
    /// gone counts as removed; then the instance is deleted. A failure
    /// leaves the phase as it was.
    pub fn finish_delete(&mut self, removal: Removal) -> (r: Result<(), LifecycleError>)
        requires
            delete_allowed(old(self).phase_spec()),
        ensures
            final(self).exit_model() == old(self).exit_model(),
            old(self).wf() ==> final(self).wf(),
            match removal {
                Removal::Removed | Removal::NotFound => r is Ok && final(self).phase_spec()
                    == step(old(self).phase_spec(), Event::Delete),
                Removal::Failed(msg) => r == Err::<(), LifecycleError>(
                    LifecycleError::Removal(msg),
                ) && final(self).phase_spec() == old(self).phase_spec(),
            },
    {
        match removal {
            Removal::Removed | Removal::NotFound => {
                self.phase = Phase::Deleted;
                Ok(())
            },
            Removal::Failed(msg) => Err(LifecycleError::Removal(msg)),
        }
    }
}

} // verus!

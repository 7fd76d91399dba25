use vstd::prelude::*;
use crate::exit::{ExitStatus, publish_spec, utc_now};
use crate::notify::{NotifyModel, WaitEvent, notify_step};
use crate::lifecycle::{
    Event, Lifecycle, LifecycleError, Phase, Removal, delete_allowed, step,
};
use crate::rootdir::{Options, determine_rootdir, path_join, selected_root};

verus! {

/// What an instance is created from.
pub struct InstanceConfig {
    pub namespace: String,
    pub bundle: Option<String>,
    pub stdin: Option<String>,
    pub stdout: Option<String>,
    pub stderr: Option<String>,
}

/// A configured string, or the empty string where none is configured.
pub open spec fn or_empty(s: Option<String>) -> Seq<char> {
    match s {
        Some(v) => v@,
        None => Seq::empty(),
    }
}

fn string_or_empty(s: &Option<String>) -> (r: String)
    ensures
        r@ == or_empty(*s),
{
    match s {
        Some(v) => v.clone(),
        None => String::new(),
    }
}

/// The stream a stdio path designates: none (inherit) when empty.
pub open spec fn stdio_target_spec(path: Seq<char>) -> Option<Seq<char>> {
    if path.len() == 0 {
        None
    } else {
        Some(path)
    }
}

/// The file that a configured stdio path designates; an empty path means
/// the stream is inherited and designates none.
pub fn stdio_target(path: &str) -> (r: Option<String>)
    ensures
        r matches Some(p) ==> stdio_target_spec(path@) == Some(p@),
        r is None <==> stdio_target_spec(path@) is None,
{
    if path.unicode_len() == 0 {
        None
    } else {
        Some(String::from_str(path))
    }
}

pub open spec fn opt_view(o: Option<String>) -> Option<Seq<char>> {
    match o {
        Some(s) => Some(s@),
        None => None,
    }
}

/// Everything the container runtime is given to build the container of an
/// instance: one executor running the engine with these streams, rooted
/// at `root_path`, as the init process of `bundle`, without systemd.
pub struct ContainerPlan {
    pub id: String,
    pub root_path: String,
    pub bundle: String,
    pub stdin: Option<String>,
    pub stdout: Option<String>,
    pub stderr: Option<String>,
    pub as_init: bool,
    pub systemd: bool,
}

/// The prefix of every error raised while building a container.
pub const BUILD_ERROR_PREFIX: &'static str = "failed to create container: ";

/// The single error that every failure to build or launch a container
/// becomes, whatever stage it came from.
pub fn build_error(cause: &str) -> (r: LifecycleError)
    ensures
        r matches LifecycleError::Build(m) && m@ == BUILD_ERROR_PREFIX@ + cause@,
{
    LifecycleError::Build(build_message(cause))
}

fn build_message(cause: &str) -> (r: String)
    ensures
        r@ == BUILD_ERROR_PREFIX@ + cause@,
{
    let mut msg = String::from_str(BUILD_ERROR_PREFIX);
    msg.append(cause);
    msg
}

/// A WebAssembly module run as a container.
pub struct Wasi {
    id: String,
    stdin: String,
    stdout: String,
    stderr: String,
    bundle: String,
    rootdir: String,
    lifecycle: Lifecycle,
}

impl Wasi {
    pub closed spec fn id_spec(&self) -> Seq<char> {
        self.id@
    }

    pub closed spec fn stdin_spec(&self) -> Seq<char> {
        self.stdin@
    }

    pub closed spec fn stdout_spec(&self) -> Seq<char> {
        self.stdout@
    }

    pub closed spec fn stderr_spec(&self) -> Seq<char> {
        self.stderr@
    }

    pub closed spec fn bundle_spec(&self) -> Seq<char> {
        self.bundle@
    }

    pub closed spec fn rootdir_spec(&self) -> Seq<char> {
        self.rootdir@
    }

    pub closed spec fn phase_spec(&self) -> Phase {
        self.lifecycle.phase_spec()
    }

    pub closed spec fn exit_model(&self) -> NotifyModel {
        self.lifecycle.exit_model()
    }

    pub open spec fn exit_spec(&self) -> Option<ExitStatus> {
        self.exit_model().status
    }

    pub closed spec fn wf(&self) -> bool {
        self.lifecycle.wf()
    }

    /// A created instance with id `id`. Unset paths become empty; the root
    /// directory is the one the bundle's options select, joined with the
    /// namespace (`options` is `None` when the bundle has no options file).
    pub fn new(id: String, cfg: &InstanceConfig, options: &Option<Options>) -> (r: Wasi)
        ensures
            r.wf(),
            r.id_spec() == id@,
            r.bundle_spec() == or_empty(cfg.bundle),
            r.stdin_spec() == or_empty(cfg.stdin),
            r.stdout_spec() == or_empty(cfg.stdout),
            r.stderr_spec() == or_empty(cfg.stderr),
            r.rootdir_spec() == path_join(selected_root(*options), cfg.namespace@),
            r.phase_spec() == Phase::Created,
            r.exit_spec() is None,
            r.exit_model().pending.len() == 0,
    {
        let rootdir = determine_rootdir(options, cfg.namespace.as_str());
        Wasi {
            id,
            stdin: string_or_empty(&cfg.stdin),
            stdout: string_or_empty(&cfg.stdout),
            stderr: string_or_empty(&cfg.stderr),
            bundle: string_or_empty(&cfg.bundle),
            rootdir,
            lifecycle: Lifecycle::new(),
        }
    }

    pub fn get_id(&self) -> (r: String)
        ensures
            r@ == self.id_spec(),
    {
        self.id.clone()
    }

    pub fn get_root_dir(&self) -> (r: String)
        ensures
            r@ == self.rootdir_spec(),
    {
        self.rootdir.clone()
    }

    pub fn get_bundle(&self) -> (r: String)
        ensures
            r@ == self.bundle_spec(),
    {
        self.bundle.clone()
    }

    pub fn phase(&self) -> (r: Phase)
        ensures
            r == self.phase_spec(),
    {
        self.lifecycle.phase()
    }

    /// What the container of this instance is built from.
    pub fn build_container(&self) -> (r: ContainerPlan)
        ensures
            r.id@ == self.id_spec(),
            r.root_path@ == self.rootdir_spec(),
            r.bundle@ == self.bundle_spec(),
            opt_view(r.stdin) == stdio_target_spec(self.stdin_spec()),
            opt_view(r.stdout) == stdio_target_spec(self.stdout_spec()),
            opt_view(r.stderr) == stdio_target_spec(self.stderr_spec()),
            r.as_init,
            !r.systemd,
    {
        ContainerPlan {
            id: self.id.clone(),
            root_path: self.rootdir.clone(),
            bundle: self.bundle.clone(),
            stdin: stdio_target(self.stdin.as_str()),
            stdout: stdio_target(self.stdout.as_str()),
            stderr: stdio_target(self.stderr.as_str()),
            as_init: true,
            systemd: false,
        }
    }

    /// Claims the start of this instance and returns what its container is
    /// built from. A second start is refused before anything is built.
    pub fn begin_start(&mut self) -> (r: Result<ContainerPlan, LifecycleError>)
        ensures
            final(self).phase_spec() == step(old(self).phase_spec(), Event::BeginStart),
            final(self).exit_model() == old(self).exit_model(),
            final(self).id_spec() == old(self).id_spec(),
            final(self).rootdir_spec() == old(self).rootdir_spec(),
            old(self).wf() ==> final(self).wf(),
            old(self).phase_spec() is Created <==> r is Ok,
            !(old(self).phase_spec() is Created) ==> r == Err::<ContainerPlan, LifecycleError>(
                LifecycleError::AlreadyStarted,
            ),
            r matches Ok(plan) ==> plan.id@ == old(self).id_spec() && plan.root_path@
                == old(self).rootdir_spec() && plan.bundle@ == old(self).bundle_spec()
                && plan.as_init && !plan.systemd,
    {
        match self.lifecycle.begin_start() {
            Ok(()) => Ok(self.build_container()),
            Err(e) => Err(e),
        }
    }

    /// Records how building and launching the container went: the pid of
    /// the started process, or the cause of the failure, which leaves the
    /// instance created so that the start may be retried.
    pub fn finish_start(&mut self, launched: Result<u32, String>) -> (r: Result<u32, LifecycleError>)
        requires
            old(self).phase_spec() is Starting,
        ensures
            final(self).exit_model() == old(self).exit_model(),
            final(self).id_spec() == old(self).id_spec(),
            final(self).rootdir_spec() == old(self).rootdir_spec(),
            old(self).wf() ==> final(self).wf(),
            match launched {
                Ok(pid) => r == Ok::<u32, LifecycleError>(pid) && final(self).phase_spec()
                    == (Phase::Running { pid }),
                Err(cause) => (r matches Err(LifecycleError::Build(m)) && m@ == BUILD_ERROR_PREFIX@
                    + cause@) && final(self).phase_spec() == Phase::Created,
            },
    {
        match launched {
            Ok(pid) => self.lifecycle.finish_start(Ok(pid)),
            Err(cause) => self.lifecycle.finish_start(Err(build_message(cause.as_str()))),
        }
    }

    /// The pid to deliver `signal` to: only a running process is signalled.
    pub fn kill(&self, signal: u32) -> (r: Result<u32, LifecycleError>)
        ensures
            match self.phase_spec() {
                Phase::Running { pid } => r == Ok::<u32, LifecycleError>(pid),
                _ => r == Err::<u32, LifecycleError>(LifecycleError::NotRunning),
            },
    {
        self.lifecycle.kill()
    }

    /// Takes in the end of the guest process, as the reaper observed it.
    /// A running instance becomes exited and publishes `st`, which is handed
    /// to every queued waiter: those deliveries come back. Otherwise
    /// nothing is published and `None` comes back.
    pub fn on_exit(&mut self, st: ExitStatus) -> (r: Option<Vec<(u64, ExitStatus)>>)
        ensures
            final(self).phase_spec() == step(old(self).phase_spec(), Event::Exit),
            final(self).id_spec() == old(self).id_spec(),
            final(self).rootdir_spec() == old(self).rootdir_spec(),
            old(self).phase_spec() is Running ==> final(self).exit_model() == notify_step(
                old(self).exit_model(),
                WaitEvent::Publish(st),
            ).0,
            old(self).phase_spec() is Running ==> final(self).exit_spec() == publish_spec(
                old(self).exit_spec(),
                st,
            ),
            old(self).phase_spec() is Running && old(self).exit_spec() is None ==> (r matches Some(
                d,
            ) && d@ == notify_step(old(self).exit_model(), WaitEvent::Publish(st)).1),
            !(old(self).phase_spec() is Running && old(self).exit_spec() is None) ==> r is None,
            !(old(self).phase_spec() is Running) ==> final(self).exit_model()
                == old(self).exit_model(),
            old(self).wf() ==> final(self).wf(),
            old(self).wf() && old(self).phase_spec() is Running ==> r is Some
                && final(self).exit_spec() == Some(st),
    {
        self.lifecycle.on_exit(st)
    }

    /// Takes in the end of the guest process with exit code `code`, stamped
    /// with the current time, as `on_exit` does.
    pub fn record_exit(&mut self, code: u32) -> (r: Option<Vec<(u64, ExitStatus)>>)
        ensures
            final(self).phase_spec() == step(old(self).phase_spec(), Event::Exit),
            final(self).id_spec() == old(self).id_spec(),
            final(self).rootdir_spec() == old(self).rootdir_spec(),
            !(old(self).phase_spec() is Running && old(self).exit_spec() is None) ==> r is None,
            !(old(self).phase_spec() is Running) ==> final(self).exit_model()
                == old(self).exit_model(),
            old(self).wf() ==> final(self).wf(),
            old(self).wf() && old(self).phase_spec() is Running ==> r is Some,
            old(self).wf() && old(self).phase_spec() is Running ==> (final(self).exit_spec() matches Some(st)
                && st.code == code && st.at.wf() && (r matches Some(d) && d@ == notify_step(
                old(self).exit_model(),
                WaitEvent::Publish(st),
            ).1)),
    {
        let at = utc_now();
        self.lifecycle.on_exit(ExitStatus { code, at })
    }

    /// Registers waiter `w`: the published status comes back at once if
    /// there is one; otherwise the waiter is queued and handed the status
    /// when the process exits.
    pub fn register_waiter(&mut self, w: u64) -> (r: Option<ExitStatus>)
        ensures
            final(self).phase_spec() == old(self).phase_spec(),
            final(self).id_spec() == old(self).id_spec(),
            final(self).rootdir_spec() == old(self).rootdir_spec(),
            final(self).exit_model() == notify_step(old(self).exit_model(), WaitEvent::Register(w)).0,
            r == old(self).exit_spec(),
            old(self).wf() ==> final(self).wf(),
    {
        self.lifecycle.register_waiter(w)
    }

    /// The published exit status, once there is one.
    pub fn wait(&self) -> (r: Option<ExitStatus>)
        ensures
            r == self.exit_spec(),
    {
        self.lifecycle.wait()
    }

    /// The published exit status, once there is one.
    pub fn get_exit_code(&self) -> (r: Option<ExitStatus>)
        ensures
            r == self.exit_spec(),
    {
        self.lifecycle.wait()
    }

    /// Decides whether the on-disk state under the root directory may be
    /// removed: not while the process may run.
    pub fn begin_delete(&self) -> (r: Result<(), LifecycleError>)
        ensures
            !delete_allowed(self.phase_spec()) ==> r == Err::<(), LifecycleError>(
                LifecycleError::StillRunning,
            ),
            delete_allowed(self.phase_spec()) ==> r is Ok,
    {
        self.lifecycle.begin_delete()
    }

    /// Records how removing the on-disk state went; state already absent
    /// counts as removed.
    pub fn finish_delete(&mut self, removal: Removal) -> (r: Result<(), LifecycleError>)
        requires
            delete_allowed(old(self).phase_spec()),
        ensures
            final(self).exit_model() == old(self).exit_model(),
            final(self).id_spec() == old(self).id_spec(),
            final(self).rootdir_spec() == old(self).rootdir_spec(),
            old(self).wf() ==> final(self).wf(),
            match removal {
                Removal::Removed | Removal::NotFound => r is Ok && final(self).phase_spec()
                    == Phase::Deleted,
                Removal::Failed(msg) => r == Err::<(), LifecycleError>(
                    LifecycleError::Removal(msg),
                ) && final(self).phase_spec() == old(self).phase_spec(),
            },
    {
        self.lifecycle.finish_delete(removal)
    }
}

} // verus!

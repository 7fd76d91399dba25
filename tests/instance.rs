use wasm_shim::exit::{ExitStatus, Timestamp};
use wasm_shim::instance::{build_error, stdio_target, InstanceConfig, Wasi};
use wasm_shim::lifecycle::{LifecycleError, Phase, Removal};
use wasm_shim::rootdir::Options;

fn config(dir: &str) -> (InstanceConfig, Option<Options>) {
    let cfg = InstanceConfig {
        namespace: "test_namespace".to_string(),
        bundle: Some(dir.to_string()),
        stdin: None,
        stdout: Some(format!("{}/stdout", dir)),
        stderr: Some(format!("{}/stderr", dir)),
    };
    let options = Some(Options { root: Some(format!("{}/runwasi", dir)) });
    (cfg, options)
}

fn status(code: u32) -> ExitStatus {
    ExitStatus { code, at: Timestamp { secs: 1_700_000_000, nanos: 5 } }
}

#[test]
fn test_delete_after_create() {
    let (cfg, options) = config("/tmp/bundle");
    let mut i = Wasi::new("".to_string(), &cfg, &options);
    assert_eq!(i.begin_delete(), Ok(()));
    assert_eq!(i.finish_delete(Removal::NotFound), Ok(()));
    assert_eq!(i.phase(), Phase::Deleted);
}

#[test]
fn new_copies_config_and_resolves_root() {
    let (cfg, options) = config("/tmp/bundle");
    let w = Wasi::new("test".to_string(), &cfg, &options);
    assert_eq!(w.get_id(), "test");
    assert_eq!(w.get_bundle(), "/tmp/bundle");
    assert_eq!(w.get_root_dir(), "/tmp/bundle/runwasi/test_namespace");
    assert_eq!(w.phase(), Phase::Created);
    assert_eq!(w.wait(), None);
}

#[test]
fn new_without_options_uses_default_root() {
    let (cfg, _) = config("/tmp/bundle");
    let w = Wasi::new("test".to_string(), &cfg, &None);
    assert_eq!(w.get_root_dir(), "/run/containerd/wasmtime/test_namespace");
}

#[test]
fn build_container_plan() {
    let (cfg, options) = config("/tmp/b");
    let w = Wasi::new("test".to_string(), &cfg, &options);
    let plan = w.build_container();
    assert_eq!(plan.id, "test");
    assert_eq!(plan.root_path, "/tmp/b/runwasi/test_namespace");
    assert_eq!(plan.bundle, "/tmp/b");
    assert_eq!(plan.stdin, None);
    assert_eq!(plan.stdout, Some("/tmp/b/stdout".to_string()));
    assert_eq!(plan.stderr, Some("/tmp/b/stderr".to_string()));
    assert!(plan.as_init);
    assert!(!plan.systemd);
}

#[test]
fn start_wait_delete_flow() {
    let (cfg, options) = config("/tmp/b");
    let mut w = Wasi::new("test".to_string(), &cfg, &options);
    assert!(w.begin_start().is_ok());
    assert_eq!(w.finish_start(Ok(4242)), Ok(4242));
    assert_eq!(w.kill(9), Ok(4242));
    assert_eq!(w.wait(), None);
    assert!(w.on_exit(status(0)).is_some());
    assert_eq!(w.wait(), Some(status(0)));
    assert_eq!(w.get_exit_code().map(|s| s.code), Some(0));
    assert_eq!(w.begin_delete(), Ok(()));
    assert_eq!(w.finish_delete(Removal::Removed), Ok(()));
    assert_eq!(w.wait(), Some(status(0)));
}

#[test]
fn second_start_is_refused() {
    let (cfg, options) = config("/tmp/b");
    let mut w = Wasi::new("test".to_string(), &cfg, &options);
    assert!(w.begin_start().is_ok());
    assert!(matches!(w.begin_start(), Err(LifecycleError::AlreadyStarted)));
    assert_eq!(w.finish_start(Ok(7)), Ok(7));
    assert!(matches!(w.begin_start(), Err(LifecycleError::AlreadyStarted)));
    assert_eq!(w.phase(), Phase::Running { pid: 7 });
}

#[test]
fn failed_build_can_be_retried() {
    let (cfg, options) = config("/tmp/b");
    let mut w = Wasi::new("test".to_string(), &cfg, &options);
    assert!(w.begin_start().is_ok());
    assert_eq!(
        w.finish_start(Err("no rootfs".to_string())),
        Err(LifecycleError::Build("failed to create container: no rootfs".to_string()))
    );
    assert_eq!(w.phase(), Phase::Created);
    assert!(w.begin_start().is_ok());
}

#[test]
fn kill_needs_a_running_process() {
    let (cfg, options) = config("/tmp/b");
    let mut w = Wasi::new("test".to_string(), &cfg, &options);
    assert_eq!(w.kill(9), Err(LifecycleError::NotRunning));
    assert!(w.begin_start().is_ok());
    assert_eq!(w.kill(9), Err(LifecycleError::NotRunning));
    assert_eq!(w.finish_start(Ok(11)), Ok(11));
    assert!(w.on_exit(status(137)).is_some());
    assert_eq!(w.kill(9), Err(LifecycleError::NotRunning));
}

#[test]
fn delete_while_running_is_refused() {
    let (cfg, options) = config("/tmp/b");
    let mut w = Wasi::new("test".to_string(), &cfg, &options);
    assert!(w.begin_start().is_ok());
    assert_eq!(w.begin_delete(), Err(LifecycleError::StillRunning));
    assert_eq!(w.finish_start(Ok(3)), Ok(3));
    assert_eq!(w.begin_delete(), Err(LifecycleError::StillRunning));
}

#[test]
fn delete_twice_succeeds() {
    let (cfg, options) = config("/tmp/b");
    let mut w = Wasi::new("test".to_string(), &cfg, &options);
    assert_eq!(w.begin_delete(), Ok(()));
    assert_eq!(w.finish_delete(Removal::Removed), Ok(()));
    assert_eq!(w.begin_delete(), Ok(()));
    assert_eq!(w.finish_delete(Removal::NotFound), Ok(()));
    assert_eq!(w.phase(), Phase::Deleted);
}

#[test]
fn failed_removal_is_reported() {
    let (cfg, options) = config("/tmp/b");
    let mut w = Wasi::new("test".to_string(), &cfg, &options);
    assert_eq!(
        w.finish_delete(Removal::Failed("busy".to_string())),
        Err(LifecycleError::Removal("busy".to_string()))
    );
    assert_eq!(w.phase(), Phase::Created);
}

#[test]
fn exit_is_published_once() {
    let (cfg, options) = config("/tmp/b");
    let mut w = Wasi::new("test".to_string(), &cfg, &options);
    assert!(w.on_exit(status(1)).is_none());
    assert_eq!(w.wait(), None);
    assert!(w.begin_start().is_ok());
    assert_eq!(w.finish_start(Ok(5)), Ok(5));
    assert!(w.on_exit(status(0)).is_some());
    assert!(w.on_exit(status(1)).is_none());
    assert_eq!(w.wait(), Some(status(0)));
}

#[test]
fn build_error_message() {
    assert_eq!(
        build_error("bad root"),
        LifecycleError::Build("failed to create container: bad root".to_string())
    );
}

#[test]
fn empty_stdio_path_is_inherited() {
    assert_eq!(stdio_target(""), None);
    assert_eq!(stdio_target("/dev/null"), Some("/dev/null".to_string()));
}

#[test]
fn record_exit_publishes_code() {
    let (cfg, options) = config("/tmp/b");
    let mut w = Wasi::new("test".to_string(), &cfg, &options);
    assert!(w.record_exit(2).is_none());
    assert!(w.begin_start().is_ok());
    assert_eq!(w.finish_start(Ok(9)), Ok(9));
    assert!(w.record_exit(0).is_some());
    let st = w.wait().unwrap();
    assert_eq!(st.code, 0);
    assert!(st.at.secs > 1_600_000_000);
    assert!(st.at.nanos < 2_000_000_000);
    assert!(w.record_exit(1).is_none());
    assert_eq!(w.wait(), Some(st));
}

#[test]
fn queued_waiters_receive_the_exit() {
    let (cfg, options) = config("/tmp/b");
    let mut w = Wasi::new("test".to_string(), &cfg, &options);
    assert!(w.begin_start().is_ok());
    assert_eq!(w.finish_start(Ok(21)), Ok(21));
    for id in 0..10u64 {
        assert_eq!(w.register_waiter(id), None);
    }
    let delivered = w.on_exit(status(0)).unwrap();
    let expected: Vec<(u64, ExitStatus)> = (0..10u64).map(|id| (id, status(0))).collect();
    assert_eq!(delivered, expected);
    assert_eq!(w.register_waiter(10), Some(status(0)));
}

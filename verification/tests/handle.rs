use rlxc::attach_options::AttachOptions;
use rlxc::error::Error;
use rlxc::lxc::Lxc;
use rlxc::native::{CallRecord, ContainerDef, NativeLayer};

fn layer_with(names: &[&str]) -> NativeLayer {
    let mut n = NativeLayer::new();
    for name in names {
        n.add_container(ContainerDef::new("/var/lib/x", name));
    }
    n
}

#[test]
fn construct_and_release_exactly_once() {
    let mut n = layer_with(&["web"]);
    let c = Lxc::new("web", "/var/lib/x", &mut n).unwrap();
    assert_eq!(n.acquires(), 1);
    assert_eq!(n.releases(), 0);
    c.release(&mut n);
    assert_eq!(n.acquires(), 1);
    assert_eq!(n.releases(), 1);
}

#[test]
fn operations_do_not_touch_the_reference_count() {
    let mut n = layer_with(&["web"]);
    let c = Lxc::new("web", "/var/lib/x", &mut n).unwrap();
    let _ = c.is_running(&n);
    let _ = c.may_control(&n);
    let _ = c.state(&n);
    let _ = c.start(false, Vec::new(), &mut n);
    let _ = c.shutdown(None, &mut n);
    assert_eq!(n.acquires(), 1);
    assert_eq!(n.releases(), 0);
    c.release(&mut n);
    assert_eq!(n.releases(), 1);
}

#[test]
fn nonexistent_container_is_not_found_with_no_acquire() {
    let mut n = layer_with(&["web"]);
    let r = Lxc::new("ghost", "/var/lib/x", &mut n);
    assert!(matches!(r, Err(Error::NotFound)));
    assert_eq!(n.acquires(), 0);
    assert_eq!(n.releases(), 0);
}

#[test]
fn embedded_nul_in_name_is_invalid_input() {
    let mut n = layer_with(&["web"]);
    let r = Lxc::new("we\0b", "/var/lib/x", &mut n);
    assert!(matches!(r, Err(Error::InvalidInput)));
    assert_eq!(n.acquires(), 0);
}

#[test]
fn state_and_queries() {
    let mut n = layer_with(&["web"]);
    let c = Lxc::new("web", "/var/lib/x", &mut n).unwrap();
    assert_eq!(c.state(&n), "STOPPED");
    assert!(!c.is_running(&n));
    assert!(c.may_control(&n));
    assert!(c.require_control(&n).is_ok());
    n.defs[0].controllable = false;
    assert!(!c.may_control(&n));
    assert_eq!(c.require_control(&n), Err(Error::PermissionDenied));
    n.defs[0].state_bytes = vec![0xff, 0x00];
    assert_eq!(c.state(&n), "UNKNOWN");
    c.release(&mut n);
}

#[test]
fn start_records_null_for_default_command() {
    let mut n = layer_with(&["web"]);
    let c = Lxc::new("web", "/var/lib/x", &mut n).unwrap();
    c.start(false, Vec::new(), &mut n).unwrap();
    assert!(c.is_running(&n));
    match n.calls.last().unwrap() {
        CallRecord::Start { use_init, argv } => {
            assert_eq!(*use_init, 0);
            assert!(argv.is_none());
        }
        _ => panic!("expected a start call"),
    }
    c.release(&mut n);
}

#[test]
fn start_records_the_override_command_line() {
    let mut n = layer_with(&["web"]);
    let c = Lxc::new("web", "/var/lib/x", &mut n).unwrap();
    c.start(true, vec!["/bin/sh", "-c", "true"], &mut n).unwrap();
    match n.calls.last().unwrap() {
        CallRecord::Start { use_init, argv } => {
            assert_eq!(*use_init, 1);
            let argv = argv.as_ref().unwrap();
            assert_eq!(argv.len(), 4);
            assert_eq!(argv[0].as_deref(), Some(b"/bin/sh\0".as_slice()));
            assert_eq!(argv[1].as_deref(), Some(b"-c\0".as_slice()));
            assert_eq!(argv[2].as_deref(), Some(b"true\0".as_slice()));
            assert!(argv[3].is_none());
        }
        _ => panic!("expected a start call"),
    }
    c.release(&mut n);
}

#[test]
fn start_failures() {
    let mut n = layer_with(&["web"]);
    let c = Lxc::new("web", "/var/lib/x", &mut n).unwrap();
    assert_eq!(c.start(false, vec!["a\0b"], &mut n), Err(Error::InvalidInput));
    c.start(false, Vec::new(), &mut n).unwrap();
    // Starting a running container reports native failure.
    assert_eq!(c.start(false, Vec::new(), &mut n), Err(Error::StartFailed));
    c.release(&mut n);
}

#[test]
fn shutdown_none_passes_the_indefinite_sentinel() {
    let mut n = layer_with(&["web"]);
    let c = Lxc::new("web", "/var/lib/x", &mut n).unwrap();
    c.start(false, Vec::new(), &mut n).unwrap();
    c.shutdown(None, &mut n).unwrap();
    match n.calls.last().unwrap() {
        CallRecord::Shutdown { timeout } => assert_eq!(*timeout, -1),
        _ => panic!("expected a shutdown call"),
    }
    assert!(!c.is_running(&n));
    c.release(&mut n);
}

#[test]
fn shutdown_seconds_pass_through() {
    let mut n = layer_with(&["web"]);
    let c = Lxc::new("web", "/var/lib/x", &mut n).unwrap();
    c.start(false, Vec::new(), &mut n).unwrap();
    c.shutdown(Some(5), &mut n).unwrap();
    match n.calls.last().unwrap() {
        CallRecord::Shutdown { timeout } => assert_eq!(*timeout, 5),
        _ => panic!("expected a shutdown call"),
    }
    c.release(&mut n);
}

#[test]
fn shutdown_huge_timeout_is_rejected_without_a_native_call() {
    let mut n = layer_with(&["web"]);
    let c = Lxc::new("web", "/var/lib/x", &mut n).unwrap();
    c.start(false, Vec::new(), &mut n).unwrap();
    let calls_before = n.calls.len();
    assert_eq!(c.shutdown(Some(0x8000_0000), &mut n), Err(Error::InvalidArgument));
    assert_eq!(n.calls.len(), calls_before);
    assert!(c.is_running(&n));
    c.release(&mut n);
}

#[test]
fn shutdown_of_stopped_container_fails() {
    let mut n = layer_with(&["web"]);
    let c = Lxc::new("web", "/var/lib/x", &mut n).unwrap();
    assert_eq!(c.shutdown(None, &mut n), Err(Error::ShutdownFailed));
    c.release(&mut n);
}

#[test]
fn stop_is_forceful_and_fails_when_stopped() {
    let mut n = layer_with(&["web"]);
    let c = Lxc::new("web", "/var/lib/x", &mut n).unwrap();
    c.start(false, Vec::new(), &mut n).unwrap();
    c.stop(&mut n).unwrap();
    assert!(!c.is_running(&n));
    assert!(matches!(n.calls.last().unwrap(), CallRecord::Stop));
    assert_eq!(c.stop(&mut n), Err(Error::StopFailed));
    c.release(&mut n);
}

#[test]
fn attach_returns_the_raw_status_and_records_the_call() {
    let mut n = layer_with(&["web"]);
    n.defs[0].attach_status = 0x4200;
    let c = Lxc::new("web", "/var/lib/x", &mut n).unwrap();
    c.start(false, Vec::new(), &mut n).unwrap();
    let opts = AttachOptions::new().set_env_var("FOO", "bar").unwrap();
    let st = c.attach_run_wait(&opts, "/bin/true", vec!["/bin/true"], &mut n).unwrap();
    assert_eq!(st, 0x4200);
    match n.calls.last().unwrap() {
        CallRecord::Attach { record, program, argv } => {
            assert_eq!(program, &b"/bin/true\0".to_vec());
            assert_eq!(argv.len(), 2);
            assert_eq!(argv[0].as_deref(), Some(b"/bin/true\0".as_slice()));
            assert!(argv[1].is_none());
            assert_eq!(record.extra_env_vars[0].as_deref(), Some(b"FOO=bar\0".as_slice()));
        }
        _ => panic!("expected an attach call"),
    }
    c.release(&mut n);
}

#[test]
fn attach_on_stopped_container_reports_minus_one() {
    let mut n = layer_with(&["web"]);
    let c = Lxc::new("web", "/var/lib/x", &mut n).unwrap();
    let opts = AttachOptions::new();
    let st = c.attach_run_wait(&opts, "/bin/true", vec!["/bin/true"], &mut n).unwrap();
    assert_eq!(st, -1);
    c.release(&mut n);
}

#[test]
fn terminal_requires_a_running_container() {
    let mut n = layer_with(&["web"]);
    let c = Lxc::new("web", "/var/lib/x", &mut n).unwrap();
    assert_eq!(c.terminal(&mut n), Err(Error::TerminalAttachFailed));
    c.start(false, Vec::new(), &mut n).unwrap();
    assert!(c.terminal(&mut n).is_ok());
    c.release(&mut n);
}

#[test]
fn terminal_attaches_the_standard_descriptors() {
    let mut n = layer_with(&["web"]);
    let c = Lxc::new("web", "/var/lib/x", &mut n).unwrap();
    c.start(false, Vec::new(), &mut n).unwrap();
    c.terminal(&mut n).unwrap();
    match n.calls.last().unwrap() {
        CallRecord::Terminal { ttynum, stdin_fd, stdout_fd, stderr_fd, escape } => {
            assert_eq!(*ttynum, 0);
            assert_eq!(*stdin_fd, 0);
            assert_eq!(*stdout_fd, 1);
            assert_eq!(*stderr_fd, 2);
            assert_eq!(*escape, 1);
        }
        _ => panic!("expected a console call"),
    }
    c.release(&mut n);
}

#[test]
fn daemonize_sets_the_flag() {
    let mut n = layer_with(&["web"]);
    let c = Lxc::new("web", "/var/lib/x", &mut n).unwrap();
    c.daemonize(false, &mut n);
    assert!(!n.handles[0].daemonize);
    c.daemonize(true, &mut n);
    assert!(n.handles[0].daemonize);
    c.release(&mut n);
}

#[test]
fn two_handles_for_one_container() {
    let mut n = layer_with(&["web"]);
    let a = Lxc::new("web", "/var/lib/x", &mut n).unwrap();
    let b = Lxc::new("web", "/var/lib/x", &mut n).unwrap();
    assert_eq!(n.acquires(), 2);
    a.release(&mut n);
    b.release(&mut n);
    assert_eq!(n.releases(), 2);
}

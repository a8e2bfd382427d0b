use rlxc::attach_options::{
    AttachOptions, EBADF, ID_DEFAULT, LOG_FD_UNSET, LXC_ATTACH_DEFAULT, LXC_ATTACH_KEEP_ENV,
    LXC_ATTACH_CLEAR_ENV, LXC_ATTACH_MOVE_TO_CGROUP, LXC_ATTACH_TERMINAL, NAMESPACES_DEFAULT,
    PERSONALITY_DEFAULT,
};
use rlxc::error::Error;
use rlxc::log_options::LogOptions;

#[test]
fn attach_defaults() {
    let rec = AttachOptions::new().raw();
    assert_eq!(rec.attach_flags, LXC_ATTACH_DEFAULT);
    assert_eq!(rec.namespaces, NAMESPACES_DEFAULT);
    assert_eq!(rec.personality, PERSONALITY_DEFAULT);
    assert_eq!(rec.uid, ID_DEFAULT);
    assert_eq!(rec.gid, ID_DEFAULT);
    assert_eq!(rec.env_policy, LXC_ATTACH_KEEP_ENV);
    assert!(rec.initial_cwd.is_none());
    assert_eq!(rec.stdin_fd, 0);
    assert_eq!(rec.stdout_fd, 1);
    assert_eq!(rec.stderr_fd, 2);
    assert_eq!(rec.log_fd, -EBADF);
    assert_eq!(rec.log_fd, LOG_FD_UNSET);
    assert_eq!(rec.extra_env_vars, vec![None]);
    assert_eq!(rec.extra_keep_env, vec![None]);
}

#[test]
fn attach_flags_set_and_clear() {
    let b = AttachOptions::new().attach_flag(LXC_ATTACH_DEFAULT, false);
    let b = b.move_to_cgroup(true).terminal(true);
    let rec = b.raw();
    assert_eq!(rec.attach_flags, LXC_ATTACH_MOVE_TO_CGROUP | LXC_ATTACH_TERMINAL);
    let rec2 = AttachOptions::new()
        .attach_flag(LXC_ATTACH_DEFAULT, false)
        .move_to_cgroup(true)
        .terminal(true)
        .terminal(false)
        .raw();
    assert_eq!(rec2.attach_flags, LXC_ATTACH_MOVE_TO_CGROUP);
}

#[test]
fn attach_scalar_setters() {
    let rec = AttachOptions::new()
        .namespaces(7)
        .personality(Some(42))
        .uid(Some(1000))
        .gid(Some(1001))
        .clear_env()
        .stdin(5)
        .stdout(6)
        .stderr(7)
        .log_file(8)
        .raw();
    assert_eq!(rec.namespaces, 7);
    assert_eq!(rec.personality, 42);
    assert_eq!(rec.uid, 1000);
    assert_eq!(rec.gid, 1001);
    assert_eq!(rec.env_policy, LXC_ATTACH_CLEAR_ENV);
    assert_eq!(rec.stdin_fd, 5);
    assert_eq!(rec.stdout_fd, 6);
    assert_eq!(rec.stderr_fd, 7);
    assert_eq!(rec.log_fd, 8);
    let back = AttachOptions::new().uid(Some(5)).uid(None).raw();
    assert_eq!(back.uid, ID_DEFAULT);
}

#[test]
fn attach_set_keep_env_selects_policy() {
    assert_eq!(AttachOptions::new().set_keep_env(true).raw().env_policy, LXC_ATTACH_KEEP_ENV);
    assert_eq!(AttachOptions::new().set_keep_env(false).raw().env_policy, LXC_ATTACH_CLEAR_ENV);
}

#[test]
fn attach_cwd_round_trip() {
    let b = AttachOptions::new().set_initial_cwd("/tmp/work").unwrap();
    let rec = b.raw();
    assert_eq!(rec.initial_cwd.as_deref(), Some(b"/tmp/work\0".as_slice()));
    let rec2 = b.unset_initial_cwd().raw();
    assert!(rec2.initial_cwd.is_none());
    assert_eq!(
        AttachOptions::new().set_initial_cwd("bad\0dir").err(),
        Some(Error::InvalidInput)
    );
}

#[test]
fn env_entry_appears_with_null_terminator() {
    let b = AttachOptions::new().set_env_var("FOO", "bar").unwrap();
    let rec = b.raw();
    assert_eq!(rec.extra_env_vars.len(), 2);
    assert_eq!(rec.extra_env_vars[0].as_deref(), Some(b"FOO=bar\0".as_slice()));
    assert!(rec.extra_env_vars[1].is_none());
}

#[test]
fn env_and_keep_entries_preserve_order() {
    let b = AttachOptions::new()
        .set_env_var("A", "1")
        .unwrap()
        .set_env_var("B", "2")
        .unwrap()
        .keep_env_var("PATH")
        .unwrap();
    let rec = b.raw();
    assert_eq!(rec.extra_env_vars[0].as_deref(), Some(b"A=1\0".as_slice()));
    assert_eq!(rec.extra_env_vars[1].as_deref(), Some(b"B=2\0".as_slice()));
    assert!(rec.extra_env_vars[2].is_none());
    assert_eq!(rec.extra_keep_env[0].as_deref(), Some(b"PATH\0".as_slice()));
    assert_eq!(
        AttachOptions::new().set_env_var("X\0", "y").err(),
        Some(Error::InvalidInput)
    );
    assert_eq!(
        AttachOptions::new().keep_env_var("P\0Q").err(),
        Some(Error::InvalidInput)
    );
}

#[test]
fn attach_refinalize_is_identical() {
    let b = AttachOptions::new()
        .set_env_var("FOO", "bar")
        .unwrap()
        .set_initial_cwd("/srv")
        .unwrap()
        .uid(Some(3));
    let r1 = b.raw();
    let r2 = b.raw();
    assert_eq!(r1, r2);
}

#[test]
fn refinalize_reflects_mutation() {
    let b = AttachOptions::new();
    let r1 = b.raw();
    let b = b.uid(Some(9));
    let r2 = b.raw();
    assert_eq!(r1.uid, ID_DEFAULT);
    assert_eq!(r2.uid, 9);
}

#[test]
fn log_defaults_and_setters() {
    let rec = LogOptions::new().raw();
    assert!(rec.name.is_none());
    assert!(rec.path.is_none());
    assert!(rec.file.is_none());
    assert!(rec.level.is_none());
    assert!(rec.prefix.is_none());
    assert!(rec.quiet);
    let b = LogOptions::new()
        .set_log_name("web").unwrap()
        .set_log_path("/var/lib/x").unwrap()
        .set_log_file("/tmp/x.log").unwrap()
        .set_log_level("ERROR").unwrap()
        .set_log_prefix("rlxc start").unwrap()
        .set_quiet(false);
    let rec = b.raw();
    assert_eq!(rec.name.as_deref(), Some(b"web\0".as_slice()));
    assert_eq!(rec.path.as_deref(), Some(b"/var/lib/x\0".as_slice()));
    assert_eq!(rec.file.as_deref(), Some(b"/tmp/x.log\0".as_slice()));
    assert_eq!(rec.level.as_deref(), Some(b"ERROR\0".as_slice()));
    assert_eq!(rec.prefix.as_deref(), Some(b"rlxc start\0".as_slice()));
    assert!(!rec.quiet);
    assert_eq!(LogOptions::new().set_log_file("a\0b").err(), Some(Error::InvalidInput));
}

#[test]
fn log_refinalize_is_identical() {
    let b = LogOptions::new().set_log_level("INFO").unwrap().set_quiet(false);
    assert_eq!(b.raw(), b.raw());
}

#[test]
fn log_default_impl_matches_new() {
    let d = LogOptions::default().raw();
    let n = LogOptions::new().raw();
    assert_eq!(d, n);
}

use rlxc::args::{resolve_path, split_env_assignment, validate_timeout};
use rlxc::error::Error;

#[test]
fn env_assignment_splits_once() {
    let (k, v) = split_env_assignment("FOO=bar").unwrap();
    assert_eq!(k, "FOO");
    assert_eq!(v, "bar");
}

#[test]
fn env_assignment_requires_exactly_one_equals() {
    assert_eq!(split_env_assignment("FOO"), Err(Error::InvalidArgument));
    assert_eq!(split_env_assignment("A=B=C"), Err(Error::InvalidArgument));
    assert_eq!(split_env_assignment(""), Err(Error::InvalidArgument));
}

#[test]
fn env_assignment_edges() {
    let (k, v) = split_env_assignment("=v").unwrap();
    assert_eq!(k, "");
    assert_eq!(v, "v");
    let (k, v) = split_env_assignment("k=").unwrap();
    assert_eq!(k, "k");
    assert_eq!(v, "");
}

#[test]
fn timeout_sentinel_and_bounds() {
    assert_eq!(validate_timeout(-1).unwrap(), None);
    assert_eq!(validate_timeout(0).unwrap(), Some(0));
    assert_eq!(validate_timeout(5).unwrap(), Some(5));
    assert_eq!(validate_timeout(-2), Err(Error::InvalidArgument));
}

#[test]
fn path_resolution() {
    assert_eq!(
        resolve_path(Some("/a".to_string()), "/d".to_string()).unwrap(),
        "/a"
    );
    assert_eq!(
        resolve_path(None, "/d".to_string()).unwrap(),
        "/d"
    );
    assert_eq!(
        resolve_path(None, String::new()),
        Err(Error::InvalidArgument)
    );
    assert_eq!(
        resolve_path(Some(String::new()), "/d".to_string()),
        Err(Error::InvalidArgument)
    );
}

use rlxc::cvec::CStringVec;
use rlxc::error::Error;

#[test]
fn preserves_insertion_order() {
    let mut cv = CStringVec::new();
    cv.push("one").unwrap();
    cv.push("two").unwrap();
    cv.push("three").unwrap();
    assert_eq!(cv.len(), 3);
    assert_eq!(cv.get(0), &b"one\0".to_vec());
    assert_eq!(cv.get(1), &b"two\0".to_vec());
    assert_eq!(cv.get(2), &b"three\0".to_vec());
}

#[test]
fn raw_view_is_null_terminated() {
    let mut cv = CStringVec::new();
    cv.push("a").unwrap();
    cv.push("b").unwrap();
    let view = cv.get_raw();
    assert_eq!(view.len(), 3);
    assert_eq!(view[0].as_deref(), Some(b"a\0".as_slice()));
    assert_eq!(view[1].as_deref(), Some(b"b\0".as_slice()));
    assert!(view[2].is_none());
}

#[test]
fn empty_view_is_one_null() {
    let cv = CStringVec::new();
    let view = cv.get_raw();
    assert_eq!(view.len(), 1);
    assert!(view[0].is_none());
}

#[test]
fn push_rejects_embedded_nul() {
    let mut cv = CStringVec::new();
    cv.push("ok").unwrap();
    assert_eq!(cv.push("bad\0entry"), Err(Error::InvalidInput));
    assert_eq!(cv.len(), 1);
    assert_eq!(cv.get(0), &b"ok\0".to_vec());
}

#[test]
fn fresh_view_reflects_later_pushes() {
    let mut cv = CStringVec::new();
    cv.push("x").unwrap();
    let first = cv.get_raw();
    assert_eq!(first.len(), 2);
    cv.push("y").unwrap();
    let second = cv.get_raw();
    assert_eq!(second.len(), 3);
    assert_eq!(second[1].as_deref(), Some(b"y\0".as_slice()));
}

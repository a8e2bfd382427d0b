use rlxc::heap::NativeHeap;
use rlxc::strarray::{NativeStrArray, StringArrayIter};

fn fake_array(heap: &mut NativeHeap, texts: &[&str]) -> NativeStrArray {
    let mut entries = Vec::new();
    for t in texts {
        let mut buf = t.as_bytes().to_vec();
        buf.push(0);
        entries.push(Some(heap.allocate(buf)));
    }
    entries.push(None);
    let arr_id = heap.allocate(Vec::new());
    NativeStrArray { arr_id, entries }
}

#[test]
fn yields_entries_in_order_and_frees_everything() {
    let mut heap = NativeHeap::new();
    let arr = fake_array(&mut heap, &["web", "db"]);
    assert_eq!(heap.live_count(), 3);
    let mut it = StringArrayIter::new(arr, 2, &heap);
    assert_eq!(it.next(&mut heap), Some("web".to_string()));
    assert_eq!(it.next(&mut heap), Some("db".to_string()));
    assert_eq!(it.next(&mut heap), None);
    it.dispose(&mut heap);
    assert_eq!(heap.live_count(), 0);
}

#[test]
fn zero_entries_frees_only_the_array() {
    let mut heap = NativeHeap::new();
    let arr = fake_array(&mut heap, &[]);
    assert_eq!(heap.live_count(), 1);
    let mut it = StringArrayIter::new(arr, 0, &heap);
    assert_eq!(it.next(&mut heap), None);
    it.dispose(&mut heap);
    assert_eq!(heap.live_count(), 0);
}

#[test]
fn early_null_clamps_the_declared_length() {
    let mut heap = NativeHeap::new();
    let a = heap.allocate(b"one\0".to_vec());
    let arr_id = heap.allocate(Vec::new());
    // A NULL slot before the declared length ends the logical array.
    let arr = NativeStrArray { arr_id, entries: vec![Some(a), None, None] };
    let mut it = StringArrayIter::new(arr, 3, &heap);
    assert_eq!(it.next(&mut heap), Some("one".to_string()));
    assert_eq!(it.next(&mut heap), None);
    it.dispose(&mut heap);
    assert_eq!(heap.live_count(), 0);
}

#[test]
fn null_base_pointer_is_the_empty_sequence() {
    let mut heap = NativeHeap::new();
    let mut it = StringArrayIter::empty();
    assert_eq!(it.next(&mut heap), None);
    it.dispose(&mut heap);
    assert_eq!(heap.live_count(), 0);
}

#[test]
fn abandoning_midway_still_frees_the_rest() {
    let mut heap = NativeHeap::new();
    let arr = fake_array(&mut heap, &["a", "b", "c"]);
    let mut it = StringArrayIter::new(arr, 3, &heap);
    assert_eq!(it.next(&mut heap), Some("a".to_string()));
    it.dispose(&mut heap);
    assert_eq!(heap.live_count(), 0);
}

#[test]
fn undecodable_entry_yields_placeholder() {
    let mut heap = NativeHeap::new();
    let a = heap.allocate(vec![0xff, 0xfe, 0]);
    let arr_id = heap.allocate(Vec::new());
    let arr = NativeStrArray { arr_id, entries: vec![Some(a), None] };
    let mut it = StringArrayIter::new(arr, 1, &heap);
    assert_eq!(it.next(&mut heap), Some("<invalid utf8>".to_string()));
    it.dispose(&mut heap);
    assert_eq!(heap.live_count(), 0);
}

#[test]
fn drain_collects_and_frees() {
    let mut heap = NativeHeap::new();
    let arr = fake_array(&mut heap, &["x", "y"]);
    let it = StringArrayIter::new(arr, 2, &heap);
    let all = it.drain(&mut heap);
    assert_eq!(all, vec!["x".to_string(), "y".to_string()]);
    assert_eq!(heap.live_count(), 0);
}

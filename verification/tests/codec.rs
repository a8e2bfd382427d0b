use rlxc::codec::{find_nul, from_c_string, to_c_string};
use rlxc::error::Error;

#[test]
fn encode_appends_terminator() {
    let buf = to_c_string("hello").unwrap();
    assert_eq!(buf, vec![b'h', b'e', b'l', b'l', b'o', 0]);
}

#[test]
fn encode_empty_text() {
    let buf = to_c_string("").unwrap();
    assert_eq!(buf, vec![0]);
}

#[test]
fn encode_rejects_embedded_nul() {
    let text = "ab\0cd";
    assert_eq!(to_c_string(text), Err(Error::InvalidInput));
}

#[test]
fn round_trip_preserves_text() {
    let buf = to_c_string("wörld").unwrap();
    let back = from_c_string(&buf).unwrap();
    assert_eq!(back, "wörld");
}

#[test]
fn decode_stops_at_first_nul() {
    let bytes = [b'a', b'b', 0, b'c', b'd'];
    let back = from_c_string(&bytes).unwrap();
    assert_eq!(back, "ab");
}

#[test]
fn decode_without_nul_reads_all() {
    let bytes = [b'h', b'i'];
    assert_eq!(from_c_string(&bytes).unwrap(), "hi");
}

#[test]
fn decode_rejects_invalid_encoding() {
    let bytes = [0xff, 0xfe, 0];
    assert_eq!(from_c_string(&bytes), Err(Error::InvalidEncoding));
}

#[test]
fn find_nul_positions() {
    assert_eq!(find_nul(&[1, 2, 0, 4]), 2);
    assert_eq!(find_nul(&[0]), 0);
    assert_eq!(find_nul(&[7, 8]), 2);
    assert_eq!(find_nul(&[]), 0);
}

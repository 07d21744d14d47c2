use ckb_debugger_dumper::model::{hash_type_from_code, HashType};
use ckb_debugger_dumper::subst::{substitute_leaf, BinEntry};
use ckb_debugger_dumper::text::{decode_uint_le, strip_length_prefix};
use ckb_debugger_dumper::Error;

fn hex_leaf(n: usize) -> String {
    let mut s = String::from("0x");
    for _ in 0..n {
        s.push_str("ab");
    }
    s
}

#[test]
fn decode_u32_little_endian() {
    let r = decode_uint_le(&[0x78, 0x56, 0x34, 0x12]);
    assert_eq!(r.unwrap(), 0x12345678);
}

#[test]
fn decode_u64_little_endian() {
    let r = decode_uint_le(&[1, 0, 0, 0, 0, 0, 0, 0x80]);
    assert_eq!(r.unwrap(), 0x8000000000000001);
}

#[test]
fn decode_rejects_other_widths() {
    assert_eq!(decode_uint_le(&[]).unwrap_err(), Error::EncodingViolation);
    assert_eq!(decode_uint_le(&[1, 2, 3]).unwrap_err(), Error::EncodingViolation);
    assert_eq!(decode_uint_le(&[0; 5]).unwrap_err(), Error::EncodingViolation);
    assert_eq!(decode_uint_le(&[0; 16]).unwrap_err(), Error::EncodingViolation);
}

#[test]
fn strip_prefix_returns_payload() {
    let buf = vec![3, 0, 0, 0, 9, 8, 7];
    assert_eq!(strip_length_prefix(&buf).unwrap(), vec![9, 8, 7]);
}

#[test]
fn strip_prefix_of_empty_payload() {
    let buf = vec![0, 0, 0, 0];
    assert_eq!(strip_length_prefix(&buf).unwrap(), Vec::<u8>::new());
}

#[test]
fn strip_prefix_rejects_short_buffer() {
    assert_eq!(strip_length_prefix(&vec![1, 0, 0]).unwrap_err(), Error::EncodingViolation);
}

#[test]
fn strip_prefix_rejects_wrong_count() {
    let buf = vec![5, 0, 0, 0, 9, 8, 7];
    assert_eq!(strip_length_prefix(&buf).unwrap_err(), Error::EncodingViolation);
}

#[test]
fn hash_type_discriminants() {
    assert_eq!(hash_type_from_code(0).unwrap(), HashType::Data);
    assert_eq!(hash_type_from_code(1).unwrap(), HashType::Type);
    assert_eq!(hash_type_from_code(2).unwrap(), HashType::Data1);
    assert_eq!(hash_type_from_code(3).unwrap_err(), Error::EncodingViolation);
    assert_eq!(hash_type_from_code(255).unwrap_err(), Error::EncodingViolation);
}

#[test]
fn substitution_triggers_inside_window() {
    // A 1000-byte file and a leaf of decoded length 1050: 1000 <= 1050 <= 1100.
    let entries = vec![BinEntry { path: String::from("/tmp/bins/a"), size: 1000 }];
    let leaf = hex_leaf(1050);
    let out = substitute_leaf(&leaf, &entries);
    assert_eq!(out, "0x{{ data /tmp/bins/a }}");
}

#[test]
fn substitution_at_window_edges() {
    let entries = vec![BinEntry { path: String::from("/tmp/bins/a"), size: 1000 }];
    assert_eq!(substitute_leaf(&hex_leaf(1000), &entries), "0x{{ data /tmp/bins/a }}");
    assert_eq!(substitute_leaf(&hex_leaf(1100), &entries), "0x{{ data /tmp/bins/a }}");
    // One byte below the file size, and one byte above the window: no match.
    assert_eq!(substitute_leaf(&hex_leaf(999), &entries), hex_leaf(999));
    assert_eq!(substitute_leaf(&hex_leaf(1101), &entries), hex_leaf(1101));
}

#[test]
fn substitution_takes_first_match() {
    let entries = vec![
        BinEntry { path: String::from("/tmp/bins/small"), size: 10 },
        BinEntry { path: String::from("/tmp/bins/a"), size: 1000 },
        BinEntry { path: String::from("/tmp/bins/b"), size: 1001 },
    ];
    assert_eq!(substitute_leaf(&hex_leaf(1050), &entries), "0x{{ data /tmp/bins/a }}");
}

#[test]
fn substitution_of_empty_leaf() {
    // Only an empty file matches the empty buffer.
    let zero = vec![BinEntry { path: String::from("/tmp/bins/z"), size: 0 }];
    assert_eq!(substitute_leaf(&String::from("0x"), &zero), "0x{{ data /tmp/bins/z }}");
    let one = vec![BinEntry { path: String::from("/tmp/bins/o"), size: 1 }];
    assert_eq!(substitute_leaf(&String::from("0x"), &one), "0x");
}

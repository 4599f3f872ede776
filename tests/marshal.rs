use rrd::error::RrdError;
use rrd::marshal::{
    decode_foreign, encode_foreign, make_counted_array, make_null_terminated_array,
    path_to_foreign, string_to_foreign, to_foreign_time, EpochTime,
};

#[test]
fn encode_plain_text_appends_terminator() {
    assert_eq!(encode_foreign("abc"), Some(vec![97, 98, 99, 0]));
    assert_eq!(encode_foreign(""), Some(vec![0]));
}

#[test]
fn encode_multibyte_text() {
    assert_eq!(encode_foreign("é"), Some(vec![0xC3, 0xA9, 0]));
}

#[test]
fn encode_refuses_embedded_null() {
    assert_eq!(encode_foreign("a\0b"), None);
    assert_eq!(encode_foreign("\0"), None);
}

#[test]
fn round_trip_through_foreign_bytes() {
    for s in ["", "abc", "DS:temp:GAUGE:600:U:U", "grüße ☃"] {
        let b = encode_foreign(s).unwrap();
        assert_eq!(decode_foreign(&b), Some(s.to_string()));
    }
}

#[test]
fn decode_refuses_malformed_bytes() {
    assert_eq!(decode_foreign(&[]), None);
    assert_eq!(decode_foreign(&[97, 98]), None);
    assert_eq!(decode_foreign(&[97, 0, 98, 0]), None);
    assert_eq!(decode_foreign(&[0xFF, 0]), None);
}

#[test]
fn path_with_null_is_invalid_path() {
    assert_eq!(path_to_foreign("/tmp/a\0.rrd"), Err(RrdError::InvalidPath));
    assert_eq!(path_to_foreign("/tmp/a.rrd").unwrap(), b"/tmp/a.rrd\0".to_vec());
}

#[test]
fn string_with_null_is_invalid_string() {
    assert_eq!(string_to_foreign("AV\0G"), Err(RrdError::InvalidString { index: 0 }));
    assert_eq!(string_to_foreign("AVERAGE").unwrap(), b"AVERAGE\0".to_vec());
}

#[test]
fn time_conversion() {
    let t = EpochTime { before_epoch: false, secs: 1_600_000_000, nanos: 999_999_999 };
    assert_eq!(to_foreign_time(t), Ok(1_600_000_000));
    let epoch = EpochTime { before_epoch: false, secs: 0, nanos: 0 };
    assert_eq!(to_foreign_time(epoch), Ok(0));
    let largest = EpochTime { before_epoch: false, secs: i64::MAX as u64, nanos: 0 };
    assert_eq!(to_foreign_time(largest), Ok(i64::MAX));
}

#[test]
fn time_out_of_range() {
    let before = EpochTime { before_epoch: true, secs: 0, nanos: 1 };
    assert_eq!(to_foreign_time(before), Err(RrdError::TimeOutOfRange));
    let too_late = EpochTime { before_epoch: false, secs: i64::MAX as u64 + 1, nanos: 0 };
    assert_eq!(to_foreign_time(too_late), Err(RrdError::TimeOutOfRange));
}

#[test]
fn counted_array_has_one_slot_per_string() {
    let a = make_counted_array(&["N:1", "N:2"]).unwrap();
    assert_eq!(a.len(), 2);
    assert_eq!(a.count(), 2);
    assert!(!a.is_null_terminated());
    assert_eq!(a.slot(0), Some(&b"N:1\0".to_vec()));
    assert_eq!(a.slot(1), Some(&b"N:2\0".to_vec()));
}

#[test]
fn null_terminated_array_ends_in_marker() {
    let a = make_null_terminated_array(&["a.rrd", "b.rrd"]).unwrap();
    assert_eq!(a.len(), 3);
    assert_eq!(a.count(), 2);
    assert!(a.is_null_terminated());
    assert_eq!(a.slot(0), Some(&b"a.rrd\0".to_vec()));
    assert_eq!(a.slot(1), Some(&b"b.rrd\0".to_vec()));
    assert_eq!(a.slot(2), None);
}

#[test]
fn empty_arrays() {
    let c = make_counted_array(&[]).unwrap();
    assert_eq!(c.len(), 0);
    let n = make_null_terminated_array(&[]).unwrap();
    assert_eq!(n.len(), 1);
    assert_eq!(n.slot(0), None);
}

#[test]
fn array_reports_first_string_with_null() {
    let xs = ["ok", "b\0ad", "x\0"];
    assert_eq!(make_counted_array(&xs).err(), Some(RrdError::InvalidString { index: 1 }));
    assert_eq!(make_null_terminated_array(&xs).err(), Some(RrdError::InvalidString { index: 1 }));
}

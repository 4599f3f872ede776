use rrd::call::{call_succeeded, engine_error, prepare_create, prepare_fetch, prepare_update};
use rrd::error::RrdError;
use rrd::flags::ExtraFlags;
use rrd::marshal::EpochTime;

fn at(secs: u64) -> EpochTime {
    EpochTime { before_epoch: false, secs, nanos: 0 }
}

fn before() -> EpochTime {
    EpochTime { before_epoch: true, secs: 5, nanos: 0 }
}

#[test]
fn create_marshals_every_argument() {
    let args = ["DS:v:GAUGE:600:U:U", "RRA:AVERAGE:0.5:1:10"];
    let c = prepare_create("/tmp/x.rrd", 300, at(1000), true, &["s.rrd"], Some("t.rrd"), &args)
        .unwrap();
    assert_eq!(c.path, b"/tmp/x.rrd\0".to_vec());
    assert_eq!(c.step, 300);
    assert_eq!(c.last_update, 1000);
    assert_eq!(c.no_overwrite, 1);
    assert_eq!(c.sources.len(), 2);
    assert_eq!(c.sources.slot(1), None);
    assert_eq!(c.template, Some(b"t.rrd\0".to_vec()));
    assert_eq!(c.args.count(), 2);
    assert_eq!(c.sources.count(), 1);
    assert_eq!(c.args.slot(0), Some(&b"DS:v:GAUGE:600:U:U\0".to_vec()));
}

#[test]
fn create_without_sources_or_template() {
    let c = prepare_create("x.rrd", 60, at(0), false, &[], None, &["DS:a:COUNTER:120:0:U"]).unwrap();
    assert_eq!(c.no_overwrite, 0);
    assert_eq!(c.sources.len(), 1);
    assert_eq!(c.sources.slot(0), None);
    assert_eq!(c.template, None);
    assert_eq!(c.args.len(), 1);
}

#[test]
fn create_errors_in_order() {
    let a = ["DS"];
    let bad = ["D\0S"];
    assert_eq!(prepare_create("x\0", 1, before(), false, &["s\0"], None, &bad).err(), Some(RrdError::InvalidPath));
    assert_eq!(
        prepare_create("x", 1, before(), false, &["s.rrd", "s\0", "t\0"], None, &bad).err(),
        Some(RrdError::InvalidString { index: 1 })
    );
    assert_eq!(prepare_create("x", 1, before(), false, &[], Some("t\0"), &bad).err(), Some(RrdError::InvalidPath));
    assert_eq!(
        prepare_create("x", 1, before(), false, &[], None, &["ok", "D\0S"]).err(),
        Some(RrdError::InvalidString { index: 1 })
    );
    assert_eq!(prepare_create("x", 1, before(), false, &[], None, &a).err(), Some(RrdError::TimeOutOfRange));
}

#[test]
fn update_marshals_flags_and_args() {
    let flags = ExtraFlags { skip_past_updates: true };
    let u = prepare_update("x.rrd", None, flags, &["1000:1", "1300:2"]).unwrap();
    assert_eq!(u.flags, 1);
    assert_eq!(u.args.count(), 2);
    assert_eq!(u.args.slot(1), Some(&b"1300:2\0".to_vec()));
    let plain = prepare_update("x.rrd", Some("v"), ExtraFlags::empty(), &["N:1"]).unwrap();
    assert_eq!(plain.flags, 0);
    assert_eq!(plain.template, Some(b"v\0".to_vec()));
}

#[test]
fn update_errors() {
    let f = ExtraFlags::empty();
    assert_eq!(prepare_update("x\0", None, f, &["N:1"]).err(), Some(RrdError::InvalidPath));
    assert_eq!(prepare_update("x", Some("\0"), f, &["N:1"]).err(), Some(RrdError::InvalidPath));
    assert_eq!(prepare_update("x", None, f, &["N:\0"]).err(), Some(RrdError::InvalidString { index: 0 }));
}

#[test]
fn fetch_marshals_window() {
    let c = prepare_fetch("x.rrd", "AVERAGE", at(100), at(700), 300).unwrap();
    assert_eq!(c.path, b"x.rrd\0".to_vec());
    assert_eq!(c.cf, b"AVERAGE\0".to_vec());
    assert_eq!((c.start, c.end, c.step), (100, 700, 300));
}

#[test]
fn fetch_errors() {
    assert_eq!(prepare_fetch("x\0", "AV\0", before(), at(1), 1).err(), Some(RrdError::InvalidPath));
    assert_eq!(prepare_fetch("x", "AV\0", before(), at(1), 1).err(), Some(RrdError::InvalidString { index: 0 }));
    assert_eq!(prepare_fetch("x", "MAX", before(), at(1), 1).err(), Some(RrdError::TimeOutOfRange));
    assert_eq!(prepare_fetch("x", "MAX", at(1), before(), 1).err(), Some(RrdError::TimeOutOfRange));
}

#[test]
fn status_codes() {
    assert!(call_succeeded(0));
    assert!(!call_succeeded(-1));
    assert!(!call_succeeded(1));
}

#[test]
fn engine_diagnostic_becomes_error() {
    assert_eq!(
        engine_error(b"opening 'x.rrd': No such file or directory"),
        RrdError::EngineError("opening 'x.rrd': No such file or directory".to_string())
    );
    assert_eq!(engine_error(b""), RrdError::EngineError(String::new()));
}

#[test]
fn engine_diagnostic_that_is_not_utf8_is_still_an_error() {
    assert_eq!(
        engine_error(&[b'b', b'a', b'd', 0xFF]),
        RrdError::EngineError("bad\u{FFFD}".to_string())
    );
}

use event_parse::read::DEFAULT_READ_FLAGS;
use event_parse::{read_outcome, AbsCode, EvdevCode, RawEvent, ReadError, TimeVal};

fn record() -> RawEvent {
    RawEvent { type_: 3, code: 0, value: 812, sec: 42, usec: 7 }
}

#[test]
fn success_gives_the_event() {
    let ev = read_outcome(0, record()).unwrap();
    assert_eq!(ev.time, TimeVal { sec: 42, usec: 7 });
    assert_eq!(ev.ev.code, EvdevCode::AbsCode(AbsCode::AbsX));
    assert_eq!(ev.ev.val, 812);
}

#[test]
fn sync_status_is_sync_lost() {
    assert_eq!(read_outcome(1, record()), Err(ReadError::SyncLost));
}

#[test]
fn negated_eagain_is_would_block() {
    assert_eq!(read_outcome(-11, record()), Err(ReadError::WouldBlock));
}

#[test]
fn other_statuses_are_fatal() {
    assert_eq!(read_outcome(-19, record()), Err(ReadError::Fatal(-19)));
    assert_eq!(read_outcome(11, record()), Err(ReadError::Fatal(11)));
    assert_eq!(read_outcome(2, record()), Err(ReadError::Fatal(2)));
}

#[test]
fn default_flags_are_normal_and_blocking() {
    assert_eq!(DEFAULT_READ_FLAGS, 10);
}

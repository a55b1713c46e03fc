use event_parse::{
    classify, make_event, AbsCode, EvdevCode, EvdevData, EvdevType, KeyCode, RawEvent, SynCode,
    TimeVal,
};

#[test]
fn parse_event_test() {
    let expected = AbsCode::AbsY;
    if let EvdevCode::AbsCode(actual) = EvdevCode::from((3u16, 1u16)) {
        assert_eq!(expected, actual);
    } else {
        panic!("Expected AbsCode");
    }
}

#[test]
fn unknown_types_are_undefined() {
    for t in 4u16..=600 {
        for s in [0u16, 1, 47, 330, 999, u16::MAX] {
            assert_eq!(classify(t, s), EvdevCode::Undefined(t));
        }
    }
    assert_eq!(classify(u16::MAX, 0), EvdevCode::Undefined(u16::MAX));
}

#[test]
fn relative_motion_has_no_named_codes() {
    assert_eq!(classify(2, 0), EvdevCode::Undefined(2));
    assert_eq!(classify(2, 1), EvdevCode::Undefined(2));
}

#[test]
fn known_mappings() {
    assert_eq!(classify(3, 1), EvdevCode::AbsCode(AbsCode::AbsY));
    assert_eq!(classify(3, 0), EvdevCode::AbsCode(AbsCode::AbsX));
    assert_eq!(classify(0, 0), EvdevCode::SynCode(SynCode::SynReport));
    assert_eq!(classify(1, 330), EvdevCode::KeyCode(KeyCode::BtnTouch));
    assert_eq!(classify(3, 47), EvdevCode::AbsCode(AbsCode::AbsMtSlot));
    assert_eq!(classify(3, 53), EvdevCode::AbsCode(AbsCode::AbsMtPosX));
    assert_eq!(classify(3, 54), EvdevCode::AbsCode(AbsCode::AbsMtPosY));
    assert_eq!(classify(3, 57), EvdevCode::AbsCode(AbsCode::AbsMtTrackingId));
}

#[test]
fn unknown_sub_codes_keep_the_type() {
    assert_eq!(classify(3, 999), EvdevCode::Undefined(3));
    assert_eq!(classify(0, 1), EvdevCode::Undefined(0));
    assert_eq!(classify(1, 331), EvdevCode::Undefined(1));
    assert_eq!(classify(3, 2), EvdevCode::Undefined(3));
}

#[test]
fn family_table() {
    assert_eq!(EvdevType::from_u16(0), Some(EvdevType::EvSym));
    assert_eq!(EvdevType::from_u16(1), Some(EvdevType::EvKey));
    assert_eq!(EvdevType::from_u16(2), Some(EvdevType::EvRel));
    assert_eq!(EvdevType::from_u16(3), Some(EvdevType::EvAbs));
    assert_eq!(EvdevType::from_u16(4), None);
    assert_eq!(EvdevType::EvAbs.code(), 3);
}

#[test]
fn make_event_keeps_value_and_time() {
    let raw = RawEvent { type_: 3, code: 53, value: -1234, sec: 1_700_000_000, usec: 999_999 };
    let ev = make_event(raw);
    assert_eq!(ev.ev.val, -1234);
    assert_eq!(ev.time, TimeVal { sec: 1_700_000_000, usec: 999_999 });
    assert_eq!(ev.ev.code, EvdevCode::AbsCode(AbsCode::AbsMtPosX));

    let raw = RawEvent { type_: 17, code: 4, value: i32::MIN, sec: i64::MIN, usec: i64::MAX };
    let ev = make_event(raw);
    assert_eq!(ev.ev.val, i32::MIN);
    assert_eq!(ev.time, TimeVal { sec: i64::MIN, usec: i64::MAX });
    assert_eq!(ev.ev.code, EvdevCode::Undefined(17));
}

#[test]
fn data_from_raw_record() {
    let raw = RawEvent { type_: 1, code: 330, value: 1, sec: 5, usec: 6 };
    let data = EvdevData::from(raw);
    assert_eq!(data, EvdevData { code: EvdevCode::KeyCode(KeyCode::BtnTouch), val: 1 });
}

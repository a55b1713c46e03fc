//! The event classifier: a total map from raw `(type, code, value, time)` records
//! to a closed, typed event value.
use vstd::prelude::*;

verus! {

/// The family of an event record, selected by its type code.
#[derive(Debug, Clone, Copy, PartialEq, Eq, Structural)]
pub enum EvdevType {
    EvSym,
    EvKey,
    EvRel,
    EvAbs,
}

/// Sub-codes of the synchronization family.
#[derive(Debug, Clone, Copy, PartialEq, Eq, Structural)]
pub enum SynCode {
    SynReport,
}

/// Sub-codes of the key family that this library names.
#[derive(Debug, Clone, Copy, PartialEq, Eq, Structural)]
pub enum KeyCode {
    BtnTouch,
}

/// Sub-codes of the absolute-axis family that this library names.
#[derive(Debug, Clone, Copy, PartialEq, Eq, Structural)]
pub enum AbsCode {
    AbsX,
    AbsY,
    AbsMtSlot,
    AbsMtPosX,
    AbsMtPosY,
    AbsMtTrackingId,
}

/// A classified event code. `Undefined` carries the raw *type* code of a record
/// whose family, or whose sub-code within its family, is not recognized.
#[derive(Debug, Clone, Copy, PartialEq, Eq, Structural)]
pub enum EvdevCode {
    SynCode(SynCode),
    KeyCode(KeyCode),
    AbsCode(AbsCode),
    Undefined(u16),
}

/// The family table: type codes 0 to 3.
pub open spec fn type_of(t: u16) -> Option<EvdevType> {
    if t == 0 {
        Some(EvdevType::EvSym)
    } else if t == 1 {
        Some(EvdevType::EvKey)
    } else if t == 2 {
        Some(EvdevType::EvRel)
    } else if t == 3 {
        Some(EvdevType::EvAbs)
    } else {
        None
    }
}

/// The synchronization table.
pub open spec fn syn_code_of(s: u16) -> Option<SynCode> {
    if s == 0 {
        Some(SynCode::SynReport)
    } else {
        None
    }
}

/// The key table.
pub open spec fn key_code_of(s: u16) -> Option<KeyCode> {
    if s == 330 {
        Some(KeyCode::BtnTouch)
    } else {
        None
    }
}

/// The absolute-axis table.
pub open spec fn abs_code_of(s: u16) -> Option<AbsCode> {
    if s == 0 {
        Some(AbsCode::AbsX)
    } else if s == 1 {
        Some(AbsCode::AbsY)
    } else if s == 47 {
        Some(AbsCode::AbsMtSlot)
    } else if s == 53 {
        Some(AbsCode::AbsMtPosX)
    } else if s == 54 {
        Some(AbsCode::AbsMtPosY)
    } else if s == 57 {
        Some(AbsCode::AbsMtTrackingId)
    } else {
        None
    }
}

/// Two-stage classification: the family by `t`, then the sub-code `s` by the
/// family's table; anything unmatched is `Undefined(t)`.
pub open spec fn classify_spec(t: u16, s: u16) -> EvdevCode {
    match type_of(t) {
        Some(EvdevType::EvSym) => match syn_code_of(s) {
            Some(c) => EvdevCode::SynCode(c),
            None => EvdevCode::Undefined(t),
        },
        Some(EvdevType::EvKey) => match key_code_of(s) {
            Some(c) => EvdevCode::KeyCode(c),
            None => EvdevCode::Undefined(t),
        },
        Some(EvdevType::EvAbs) => match abs_code_of(s) {
            Some(c) => EvdevCode::AbsCode(c),
            None => EvdevCode::Undefined(t),
        },
        _ => EvdevCode::Undefined(t),
    }
}

impl EvdevType {
    /// The family of type code `t`, if it is one of the four known ones.
    pub fn from_u16(t: u16) -> (r: Option<EvdevType>)
        ensures
            r == type_of(t),
    {
        match t {
            0 => Some(EvdevType::EvSym),
            1 => Some(EvdevType::EvKey),
            2 => Some(EvdevType::EvRel),
            3 => Some(EvdevType::EvAbs),
            _ => None,
        }
    }

    /// The type code of this family.
    pub fn code(&self) -> (r: u16)
        ensures
            type_of(r) == Some(*self),
    {
        match self {
            EvdevType::EvSym => 0,
            EvdevType::EvKey => 1,
            EvdevType::EvRel => 2,
            EvdevType::EvAbs => 3,
        }
    }
}

impl SynCode {
    /// The synchronization sub-code `s`, if known.
    pub fn from_u16(s: u16) -> (r: Option<SynCode>)
        ensures
            r == syn_code_of(s),
    {
        match s {
            0 => Some(SynCode::SynReport),
            _ => None,
        }
    }
}

impl KeyCode {
    /// The key sub-code `s`, if known.
    pub fn from_u16(s: u16) -> (r: Option<KeyCode>)
        ensures
            r == key_code_of(s),
    {
        match s {
            330 => Some(KeyCode::BtnTouch),
            _ => None,
        }
    }
}

impl AbsCode {
    /// The absolute-axis sub-code `s`, if known.
    pub fn from_u16(s: u16) -> (r: Option<AbsCode>)
        ensures
            r == abs_code_of(s),
    {
        match s {
            0 => Some(AbsCode::AbsX),
            1 => Some(AbsCode::AbsY),
            47 => Some(AbsCode::AbsMtSlot),
            53 => Some(AbsCode::AbsMtPosX),
            54 => Some(AbsCode::AbsMtPosY),
            57 => Some(AbsCode::AbsMtTrackingId),
            _ => None,
        }
    }
}

/// Classifies a record by its type code `t` and sub-code `s`. Total: every pair
/// gives a value.
pub fn classify(t: u16, s: u16) -> (r: EvdevCode)
    ensures
        r == classify_spec(t, s),
{
    match EvdevType::from_u16(t) {
        Some(EvdevType::EvSym) => match SynCode::from_u16(s) {
            Some(c) => EvdevCode::SynCode(c),
            None => EvdevCode::Undefined(t),
        },
        Some(EvdevType::EvKey) => match KeyCode::from_u16(s) {
            Some(c) => EvdevCode::KeyCode(c),
            None => EvdevCode::Undefined(t),
        },
        Some(EvdevType::EvAbs) => match AbsCode::from_u16(s) {
            Some(c) => EvdevCode::AbsCode(c),
            None => EvdevCode::Undefined(t),
        },
        _ => EvdevCode::Undefined(t),
    }
}

impl From<(u16, u16)> for EvdevCode {
    /// Classifies a `(type, sub-code)` pair; see [`classify`].
    fn from(type_and_num: (u16, u16)) -> (r: EvdevCode)
        ensures
            r == classify_spec(type_and_num.0, type_and_num.1),
    {
        classify(type_and_num.0, type_and_num.1)
    }
}

impl vstd::std_specs::convert::FromSpecImpl<(u16, u16)> for EvdevCode {
    open spec fn obeys_from_spec() -> bool {
        true
    }

    open spec fn from_spec(v: (u16, u16)) -> EvdevCode {
        classify_spec(v.0, v.1)
    }
}

/// For every pair: a type code outside the four families gives `Undefined` of that
/// code, and so does an unmatched sub-code within a known family. No pair is left
/// without a value.
pub proof fn lemma_classify_total(t: u16, s: u16)
    ensures
        type_of(t) is None ==> classify_spec(t, s) == EvdevCode::Undefined(t),
        t > 3 ==> classify_spec(t, s) == EvdevCode::Undefined(t),
        t == 2 ==> classify_spec(t, s) == EvdevCode::Undefined(t),
        t == 0 && syn_code_of(s) is None ==> classify_spec(t, s) == EvdevCode::Undefined(t),
        t == 1 && key_code_of(s) is None ==> classify_spec(t, s) == EvdevCode::Undefined(t),
        t == 3 && abs_code_of(s) is None ==> classify_spec(t, s) == EvdevCode::Undefined(t),
        classify_spec(t, s) is Undefined ==> classify_spec(t, s) == EvdevCode::Undefined(t),
{
}

/// A record's timestamp, in seconds and microseconds, 64 bits wide on every host.
#[derive(Debug, Clone, Copy, PartialEq, Eq, Structural)]
pub struct TimeVal {
    pub sec: i64,
    pub usec: i64,
}

/// A raw record as the kernel delivers it.
#[derive(Debug, Clone, Copy, PartialEq, Eq, Structural)]
pub struct RawEvent {
    pub type_: u16,
    pub code: u16,
    pub value: i32,
    pub sec: i64,
    pub usec: i64,
}

/// The classified code and value of a record.
#[derive(Debug, Clone, Copy, PartialEq, Eq, Structural)]
pub struct EvdevData {
    pub code: EvdevCode,
    pub val: i32,
}

/// A classified record with its timestamp.
#[derive(Debug, Clone, Copy, PartialEq, Eq, Structural)]
pub struct EvdevEvent {
    pub time: TimeVal,
    pub ev: EvdevData,
}

/// The data part of a raw record.
pub open spec fn data_of(r: RawEvent) -> EvdevData {
    EvdevData { code: classify_spec(r.type_, r.code), val: r.value }
}

/// The event that a raw record stands for.
pub open spec fn event_of(r: RawEvent) -> EvdevEvent {
    EvdevEvent { time: TimeVal { sec: r.sec, usec: r.usec }, ev: data_of(r) }
}

impl From<RawEvent> for EvdevData {
    /// Classifies a raw record and keeps its value.
    fn from(ev: RawEvent) -> (r: EvdevData)
        ensures
            r == data_of(ev),
    {
        EvdevData { code: classify(ev.type_, ev.code), val: ev.value }
    }
}

impl vstd::std_specs::convert::FromSpecImpl<RawEvent> for EvdevData {
    open spec fn obeys_from_spec() -> bool {
        true
    }

    open spec fn from_spec(v: RawEvent) -> EvdevData {
        data_of(v)
    }
}

/// Builds the typed event of a raw record: its timestamp and value are kept,
/// its code is classified.
pub fn make_event(record: RawEvent) -> (r: EvdevEvent)
    ensures
        r == event_of(record),
        r.ev.val == record.value,
        r.time.sec == record.sec,
        r.time.usec == record.usec,
        r.ev.code == classify_spec(record.type_, record.code),
{
    EvdevEvent { time: TimeVal { sec: record.sec, usec: record.usec }, ev: EvdevData::from(record) }
}

} // verus!

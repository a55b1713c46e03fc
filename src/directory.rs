//! Device discovery: which entries of the input directory are event devices,
//! and under which index, plus the choice of one device by a typed digit.
use vstd::prelude::*;
use vstd::string::StrSliceExecFns;

verus! {

/// Whether `c` is a decimal digit.
pub open spec fn is_digit(c: char) -> bool {
    '0' <= c && c <= '9'
}

/// The value of decimal digit `c`.
pub open spec fn digit_value(c: char) -> nat {
    (c as int - '0' as int) as nat
}

/// Whether every character of `s` is a decimal digit.
pub open spec fn all_digits(s: Seq<char>) -> bool {
    forall|i: int| 0 <= i < s.len() ==> is_digit(#[trigger] s[i])
}

/// The number that the decimal digits `s` write.
pub open spec fn decimal_value(s: Seq<char>) -> nat
    decreases s.len(),
{
    if s.len() == 0 {
        0
    } else {
        decimal_value(s.drop_last()) * 10 + digit_value(s.last())
    }
}

/// Whether `s` writes a device index: one or more decimal digits, with a value
/// that fits in `usize`.
pub open spec fn valid_index(s: Seq<char>) -> bool {
    &&& s.len() > 0
    &&& all_digits(s)
    &&& decimal_value(s) <= usize::MAX
}

/// Reads `s` as a device index: `Some` exactly when `s` is one or more decimal
/// digits whose value fits in `usize`.
pub fn parse_index(s: &str) -> (r: Option<usize>)
    ensures
        r is Some <==> valid_index(s@),
        r matches Some(n) ==> n == decimal_value(s@),
{
    let len = s.unicode_len();
    if len == 0 {
        return None;
    }
    let mut value: usize = 0;
    let mut i: usize = 0;
    while i < len
        invariant
            len == s@.len(),
            i <= len,
            all_digits(s@.take(i as int)),
            value == decimal_value(s@.take(i as int)),
        decreases len - i,
    {
        let c = s.get_char(i);
        assert(s@.take(i as int + 1).drop_last() =~= s@.take(i as int));
        if c < '0' || c > '9' {
            return None;
        }
        let d = (c as u32 - '0' as u32) as usize;
        match value.checked_mul(10) {
            None => {
                proof { lemma_prefix_too_large(s@, i as int + 1); }
                return None;
            },
            Some(m) => match m.checked_add(d) {
                None => {
                    proof { lemma_prefix_too_large(s@, i as int + 1); }
                    return None;
                },
                Some(v) => {
                    value = v;
                },
            },
        }
        i = i + 1;
        assert forall|k: int| 0 <= k < i implies is_digit(#[trigger] s@.take(i as int)[k]) by {
            if k < i - 1 {
                assert(s@.take(i as int)[k] == s@.take(i as int - 1)[k]);
            }
        }
    }
    assert(s@.take(len as int) =~= s@);
    Some(value)
}

/// A string of digits is worth at least any of its prefixes.
proof fn lemma_decimal_monotone(s: Seq<char>, j: int)
    requires
        0 <= j <= s.len(),
    ensures
        decimal_value(s.take(j)) <= decimal_value(s),
    decreases s.len(),
{
    if j < s.len() {
        assert(s.drop_last().take(j) =~= s.take(j));
        lemma_decimal_monotone(s.drop_last(), j);
    } else {
        assert(s.take(j) =~= s);
    }
}

/// Where the value of the first `j` digits exceeds `usize`, `s` is no index.
proof fn lemma_prefix_too_large(s: Seq<char>, j: int)
    requires
        0 < j <= s.len(),
        decimal_value(s.take(j)) > usize::MAX,
    ensures
        !valid_index(s),
{
    lemma_decimal_monotone(s, j);
}

/// One entry of the input directory: its file name, and whether it is a directory.
#[derive(Debug, Clone)]
pub struct DirEntry {
    pub name: String,
    pub is_dir: bool,
}

impl View for DirEntry {
    type V = (Seq<char>, bool);

    open spec fn view(&self) -> (Seq<char>, bool) {
        (self.name@, self.is_dir)
    }
}

/// Why enumerating devices failed.
#[derive(Debug, Clone)]
pub enum Error {
    /// The directory or a device could not be read; carries the cause.
    Io(String),
    /// A device-looking entry whose suffix is no index; carries the entry's name.
    InvalidIndex(String),
}

/// The name prefix of event device nodes.
pub open spec fn event_prefix() -> Seq<char> {
    seq!['e', 'v', 'e', 'n', 't']
}

/// Whether an entry names an event device: not a directory, and a name that is
/// the prefix followed by at least one character.
pub open spec fn is_candidate(e: (Seq<char>, bool)) -> bool {
    &&& !e.1
    &&& e.0.len() > event_prefix().len()
    &&& e.0.take(event_prefix().len() as int) == event_prefix()
}

/// The part of a name after the prefix.
pub open spec fn suffix(name: Seq<char>) -> Seq<char> {
    name.skip(event_prefix().len() as int)
}

/// The views of a list of entries.
pub open spec fn entries_view(es: Seq<DirEntry>) -> Seq<(Seq<char>, bool)> {
    es.map_values(|e: DirEntry| e@)
}

/// The device indices of the entries, in order; the first candidate whose suffix
/// is no index ends the scan with its name.
pub open spec fn scan_spec(es: Seq<(Seq<char>, bool)>) -> Result<Seq<usize>, Seq<char>>
    decreases es.len(),
{
    if es.len() == 0 {
        Ok(Seq::empty())
    } else {
        match scan_spec(es.drop_last()) {
            Err(n) => Err(n),
            Ok(v) => {
                let e = es.last();
                if !is_candidate(e) {
                    Ok(v)
                } else if !valid_index(suffix(e.0)) {
                    Err(e.0)
                } else {
                    Ok(v.push(decimal_value(suffix(e.0)) as usize))
                }
            },
        }
    }
}

/// Whether `name` starts with the event prefix and has more after it.
fn has_event_prefix(name: &str) -> (r: bool)
    ensures
        r == (name@.len() > event_prefix().len() && name@.take(event_prefix().len() as int)
            == event_prefix()),
{
    let len = name.unicode_len();
    if len <= 5 {
        return false;
    }
    let r = name.get_char(0) == 'e' && name.get_char(1) == 'v' && name.get_char(2) == 'e'
        && name.get_char(3) == 'n' && name.get_char(4) == 't';
    assert(r ==> name@.take(5) =~= event_prefix());
    r
}

/// The device index of one entry: `Ok(None)` for an entry that is no event
/// device, `Ok(Some(i))` for `event<i>`, and `InvalidIndex` for an event device
/// name whose suffix is no index.
pub fn entry_index(entry: &DirEntry) -> (r: Result<Option<usize>, Error>)
    ensures
        !is_candidate(entry@) ==> r matches Ok(None),
        is_candidate(entry@) && valid_index(suffix(entry@.0)) ==> (r matches Ok(Some(i)) && i
            == decimal_value(suffix(entry@.0))),
        is_candidate(entry@) && !valid_index(suffix(entry@.0)) ==> (r matches Err(
            Error::InvalidIndex(n),
        ) && n@ == entry@.0),
{
    if entry.is_dir || !has_event_prefix(entry.name.as_str()) {
        return Ok(None);
    }
    let name = entry.name.as_str();
    let len = name.unicode_len();
    let rest = name.substring_char(5, len);
    match parse_index(rest) {
        Some(i) => Ok(Some(i)),
        None => Err(Error::InvalidIndex(entry.name.clone())),
    }
}

/// Scans directory entries for event devices. On success, the indices of the
/// candidates, in the order of the entries; otherwise `InvalidIndex` with the
/// name of the first candidate whose suffix is no index. Nothing is returned
/// in part.
pub fn scan_entries(entries: &Vec<DirEntry>) -> (r: Result<Vec<usize>, Error>)
    ensures
        r is Ok <==> scan_spec(entries_view(entries@)) is Ok,
        r matches Ok(v) ==> scan_spec(entries_view(entries@)) == Ok::<Seq<usize>, Seq<char>>(
            v@,
        ),
        r matches Err(e) ==> (e matches Error::InvalidIndex(n) && scan_spec(
            entries_view(entries@),
        ) == Err::<Seq<usize>, Seq<char>>(n@)),
{
    let ghost es = entries_view(entries@);
    let mut found: Vec<usize> = Vec::new();
    let mut i: usize = 0;
    while i < entries.len()
        invariant
            i <= entries@.len(),
            es == entries_view(entries@),
            scan_spec(es.take(i as int)) == Ok::<Seq<usize>, Seq<char>>(found@),
        decreases entries@.len() - i,
    {
        assert(es.take(i as int + 1).drop_last() =~= es.take(i as int));
        assert(es.take(i as int + 1).last() == entries@[i as int]@);
        match entry_index(&entries[i]) {
            Ok(None) => {},
            Ok(Some(k)) => {
                found.push(k);
            },
            Err(e) => {
                proof { lemma_scan_error_persists(es, i as int + 1); }
                return Err(e);
            },
        }
        i = i + 1;
    }
    assert(es.take(i as int) =~= es);
    Ok(found)
}

/// Once a prefix of the entries ends the scan with an error, the whole list
/// ends with the same error.
proof fn lemma_scan_error_persists(es: Seq<(Seq<char>, bool)>, j: int)
    requires
        0 <= j <= es.len(),
        scan_spec(es.take(j)) is Err,
    ensures
        scan_spec(es) == scan_spec(es.take(j)),
    decreases es.len(),
{
    if j == es.len() {
        assert(es.take(j) =~= es);
    } else {
        assert(es.drop_last().take(j) =~= es.take(j));
        lemma_scan_error_persists(es.drop_last(), j);
    }
}

/// Whether every candidate among the entries carries a valid index.
pub open spec fn all_indices_valid(es: Seq<(Seq<char>, bool)>) -> bool {
    forall|i: int| 0 <= i < es.len() && #[trigger] is_candidate(es[i]) ==> valid_index(suffix(es[i].0))
}

/// The indices that the candidates among the entries carry.
pub open spec fn index_set(es: Seq<(Seq<char>, bool)>) -> Set<usize> {
    Set::new(|k: usize| exists|i: int| 0 <= i < es.len() && #[trigger] is_candidate(es[i]) && decimal_value(suffix(es[i].0)) == k)
}

/// The scan succeeds exactly when every candidate carries a valid index, and
/// then finds the candidates' indices.
proof fn lemma_scan_shape(es: Seq<(Seq<char>, bool)>)
    ensures
        scan_spec(es) is Ok <==> all_indices_valid(es),
        scan_spec(es) is Ok ==> scan_spec(es)->Ok_0.to_set() == index_set(es),
    decreases es.len(),
{
    if es.len() > 0 {
        let p = es.drop_last();
        let e = es.last();
        lemma_scan_shape(p);
        assert forall|i: int| 0 <= i < p.len() implies p[i] == es[i] by {}
        if scan_spec(es) is Ok {
            let v = scan_spec(es)->Ok_0;
            let pv = scan_spec(p)->Ok_0;
            assert forall|k: usize| v.to_set().contains(k) <==> index_set(es).contains(k) by {
                if v.to_set().contains(k) {
                    let j = choose|j: int| 0 <= j < v.len() && v[j] == k;
                    if is_candidate(e) && j == pv.len() {
                        assert(is_candidate(es[es.len() - 1]));
                    } else {
                        assert(v[j] == pv[j]);
                        assert(pv.to_set().contains(k));
                        assert(index_set(p).contains(k));
                        let i = choose|i: int| 0 <= i < p.len() && #[trigger] is_candidate(p[i]) && decimal_value(suffix(p[i].0)) == k;
                        assert(is_candidate(es[i]));
                    }
                }
                if index_set(es).contains(k) {
                    let i = choose|i: int| 0 <= i < es.len() && #[trigger] is_candidate(es[i]) && decimal_value(suffix(es[i].0)) == k;
                    if i == es.len() - 1 {
                        assert(v[v.len() - 1] == k);
                    } else {
                        assert(is_candidate(p[i]));
                        assert(index_set(p).contains(k));
                        assert(pv.to_set().contains(k));
                        let j = choose|j: int| 0 <= j < pv.len() && pv[j] == k;
                        assert(v[j] == k);
                    }
                }
            }
            assert(v.to_set() =~= index_set(es));
        } else {
            if all_indices_valid(es) {
                assert(is_candidate(es[es.len() - 1]) ==> valid_index(suffix(es[es.len() - 1].0)));
                assert(all_indices_valid(p)) by {
                    assert forall|i: int| 0 <= i < p.len() && #[trigger] is_candidate(p[i]) implies valid_index(suffix(p[i].0)) by {
                        assert(is_candidate(es[i]));
                    }
                }
            }
        }
    }
}

/// Enumerating an unchanged directory twice finds the same devices: where two
/// listings hold the same entries, in whatever order, either both scans succeed
/// or both fail, and on success they find the same set of indices.
pub proof fn lemma_scan_same_entries(a: Seq<(Seq<char>, bool)>, b: Seq<(Seq<char>, bool)>)
    requires
        forall|e: (Seq<char>, bool)| a.contains(e) <==> b.contains(e),
    ensures
        scan_spec(a) is Ok <==> scan_spec(b) is Ok,
        scan_spec(a) is Ok ==> scan_spec(a)->Ok_0.to_set() == scan_spec(b)->Ok_0.to_set(),
{
    lemma_scan_shape(a);
    lemma_scan_shape(b);
    assert forall|i: int| 0 <= i < a.len() implies b.contains(#[trigger] a[i]) by {
        assert(a.contains(a[i]));
    }
    assert forall|i: int| 0 <= i < b.len() implies a.contains(#[trigger] b[i]) by {
        assert(b.contains(b[i]));
    }
    if all_indices_valid(a) {
        assert forall|i: int| 0 <= i < b.len() && #[trigger] is_candidate(b[i]) implies valid_index(suffix(b[i].0)) by {
            let j = choose|j: int| 0 <= j < a.len() && a[j] == b[i];
            assert(is_candidate(a[j]));
        }
    }
    if all_indices_valid(b) {
        assert forall|i: int| 0 <= i < a.len() && #[trigger] is_candidate(a[i]) implies valid_index(suffix(a[i].0)) by {
            let j = choose|j: int| 0 <= j < b.len() && b[j] == a[i];
            assert(is_candidate(b[j]));
        }
    }
    assert forall|k: usize| index_set(a).contains(k) <==> index_set(b).contains(k) by {
        if index_set(a).contains(k) {
            let i = choose|i: int| 0 <= i < a.len() && #[trigger] is_candidate(a[i]) && decimal_value(suffix(a[i].0)) == k;
            let j = choose|j: int| 0 <= j < b.len() && b[j] == a[i];
            assert(is_candidate(b[j]));
        }
        if index_set(b).contains(k) {
            let i = choose|i: int| 0 <= i < b.len() && #[trigger] is_candidate(b[i]) && decimal_value(suffix(b[i].0)) == k;
            let j = choose|j: int| 0 <= j < a.len() && a[j] == b[i];
            assert(is_candidate(a[j]));
        }
    }
    assert(index_set(a) =~= index_set(b));
}

/// The device that a typed character picks among `count` listed ones: its digit,
/// where `c` is a decimal digit below `count`.
pub open spec fn selection_spec(c: char, count: usize) -> Option<usize> {
    if is_digit(c) && digit_value(c) < count {
        Some(digit_value(c) as usize)
    } else {
        None
    }
}

/// Picks a device by a typed character: `Some(d)` for a digit `d` with
/// `0 <= d < count`, `None` for anything else.
pub fn select_device(c: char, count: usize) -> (r: Option<usize>)
    ensures
        r == selection_spec(c, count),
{
    if c < '0' || c > '9' {
        return None;
    }
    let d = (c as u32 - '0' as u32) as usize;
    if d < count {
        Some(d)
    } else {
        None
    }
}

} // verus!

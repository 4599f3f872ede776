use vstd::prelude::*;
use vstd::utf8::{decode_utf8, encode_utf8, encode_utf8_decode_utf8, encode_utf8_valid_utf8, valid_utf8};

use crate::error::RrdError;

verus! {

/// Whether a byte sequence holds a zero byte anywhere.
pub open spec fn has_nul(b: Seq<u8>) -> bool {
    exists|i: int| 0 <= i < b.len() && b[i] == 0
}

/// The null-terminated byte string that stands for the characters `s`.
pub open spec fn foreign_bytes(s: Seq<char>) -> Seq<u8> {
    encode_utf8(s).push(0)
}

/// Whether `b` is a well-formed foreign string: a single null byte at the end
/// and none before it.
pub open spec fn is_foreign_string(b: Seq<u8>) -> bool {
    b.len() > 0 && b.last() == 0 && !has_nul(b.drop_last())
}

/// Encodes `s` as a null-terminated byte string; `None` when `s` holds an
/// embedded null byte.
pub fn encode_foreign(s: &str) -> (r: Option<Vec<u8>>)
    ensures
        r is None <==> has_nul(encode_utf8(s@)),
        r matches Some(b) ==> b@ == foreign_bytes(s@),
{
    let bytes = s.as_bytes();
    let mut out: Vec<u8> = Vec::new();
    let mut i: usize = 0;
    while i < bytes.len()
        invariant
            bytes@ == encode_utf8(s@),
            i <= bytes.len(),
            out@ == bytes@.subrange(0, i as int),
            forall|j: int| 0 <= j < i ==> bytes@[j] != 0,
        decreases bytes.len() - i,
    {
        if bytes[i] == 0 {
            return None;
        }
        out.push(bytes[i]);
        i = i + 1;
    }
    assert(out@ == encode_utf8(s@));
    out.push(0);
    Some(out)
}


/// Relies on std::str::from_utf8: it accepts exactly the valid UTF-8
/// sequences, and the text it hands back is made of the given bytes.
#[verifier::external_body]
fn utf8_text(b: &[u8]) -> (r: Option<String>)
    ensures
        r is Some <==> valid_utf8(b@),
        r matches Some(t) ==> encode_utf8(t@) == b@,
{
    match std::str::from_utf8(b) {
        Ok(t) => Some(String::from(t)),
        Err(_) => None,
    }
}

/// The text `String::from_utf8_lossy` makes of a byte sequence.
pub uninterp spec fn lossy_text(b: Seq<u8>) -> Seq<char>;

/// Relies on std's `String::from_utf8_lossy`: the text depends on the bytes
/// alone, and bytes that are valid UTF-8 are kept as they are.
#[verifier::external_body]
pub(crate) fn lossy_string(b: &[u8]) -> (r: String)
    ensures
        r@ == lossy_text(b@),
        valid_utf8(b@) ==> r@ == decode_utf8(b@),
{
    String::from_utf8_lossy(b).into_owned()
}

/// Reads a null-terminated byte string back as text; `None` unless `b` ends
/// in its only null byte and the bytes before it are valid UTF-8.
pub fn decode_foreign(b: &[u8]) -> (r: Option<String>)
    ensures
        r is Some <==> is_foreign_string(b@) && valid_utf8(b@.drop_last()),
        r matches Some(t) ==> t@ == decode_utf8(b@.drop_last()),
        r matches Some(t) ==> foreign_bytes(t@) == b@,
{
    let n = b.len();
    if n == 0 || b[n - 1] != 0 {
        return None;
    }
    let mut i: usize = 0;
    while i < n - 1
        invariant
            n == b@.len(),
            n > 0,
            i <= n - 1,
            forall|j: int| 0 <= j < i ==> b@[j] != 0,
        decreases n - 1 - i,
    {
        if b[i] == 0 {
            assert(b@.drop_last()[i as int] == 0);
            return None;
        }
        i = i + 1;
    }
    let body = &b[0..n - 1];
    assert(body@ == b@.drop_last());
    let r = utf8_text(body);
    if let Some(t) = &r {
        proof {
            encode_utf8_decode_utf8(t@);
        }
        assert(foreign_bytes(t@) =~= b@);
    }
    r
}

/// Encoding a string with no null byte as a foreign string and reading it
/// back gives the original characters: the encoding is well formed, its body
/// is valid UTF-8, and the body decodes to the string.
pub proof fn lemma_foreign_round_trip(s: Seq<char>)
    requires
        !has_nul(encode_utf8(s)),
    ensures
        is_foreign_string(foreign_bytes(s)),
        valid_utf8(foreign_bytes(s).drop_last()),
        decode_utf8(foreign_bytes(s).drop_last()) == s,
{
    assert(foreign_bytes(s).drop_last() =~= encode_utf8(s));
    encode_utf8_valid_utf8(s);
    encode_utf8_decode_utf8(s);
}


/// Converts a path to a foreign string; a path with an embedded null byte is
/// refused with `InvalidPath`.
pub fn path_to_foreign(path: &str) -> (r: Result<Vec<u8>, RrdError>)
    ensures
        r is Err <==> has_nul(encode_utf8(path@)),
        r matches Ok(b) ==> b@ == foreign_bytes(path@),
        r matches Err(e) ==> e == RrdError::InvalidPath,
{
    match encode_foreign(path) {
        Some(b) => Ok(b),
        None => Err(RrdError::InvalidPath),
    }
}

/// Converts a single string argument to a foreign string; one with an
/// embedded null byte is refused with `InvalidString` at index 0.
pub fn string_to_foreign(s: &str) -> (r: Result<Vec<u8>, RrdError>)
    ensures
        r is Err <==> has_nul(encode_utf8(s@)),
        r matches Ok(b) ==> b@ == foreign_bytes(s@),
        r matches Err(e) ==> e == (RrdError::InvalidString { index: 0 }),
{
    match encode_foreign(s) {
        Some(b) => Ok(b),
        None => Err(RrdError::InvalidString { index: 0 }),
    }
}

/// A point in time, given as its distance from the Unix epoch and the side of
/// the epoch it lies on.
#[derive(Debug, Clone, Copy, PartialEq, Eq)]
pub struct EpochTime {
    /// Whether the point lies strictly before the epoch.
    pub before_epoch: bool,
    /// Whole seconds between the point and the epoch.
    pub secs: u64,
    /// The sub-second rest of that distance, in nanoseconds.
    pub nanos: u32,
}

impl EpochTime {
    /// A valid distance: the sub-second rest is below one second, and a point
    /// marked as before the epoch lies at a nonzero distance from it.
    pub open spec fn wf(self) -> bool {
        &&& self.nanos < 1_000_000_000
        &&& self.before_epoch ==> self.secs > 0 || self.nanos > 0
    }
}

/// Whether `t` can be written as signed seconds since the epoch.
pub open spec fn time_in_range(t: EpochTime) -> bool {
    !t.before_epoch && t.secs <= i64::MAX
}

/// Converts a point in time to whole signed seconds since the epoch; points
/// before the epoch and beyond the range of `i64` are refused.
pub fn to_foreign_time(t: EpochTime) -> (r: Result<i64, RrdError>)
    requires
        t.wf(),
    ensures
        r is Ok <==> time_in_range(t),
        r matches Ok(v) ==> v == t.secs,
        r matches Err(e) ==> e == RrdError::TimeOutOfRange,
{
    if t.before_epoch || t.secs > i64::MAX as u64 {
        Err(RrdError::TimeOutOfRange)
    } else {
        Ok(t.secs as i64)
    }
}

/// Whether the text `s` holds an embedded null byte.
pub open spec fn text_has_nul(s: &str) -> bool {
    has_nul(encode_utf8(s@))
}

/// The slots of a counted array built from `xs`: each string's foreign bytes.
pub open spec fn counted_slots(xs: Seq<&str>) -> Seq<Option<Seq<u8>>> {
    Seq::new(xs.len(), |i: int| Some(foreign_bytes(xs[i]@)))
}

/// Whether `k` is the index of the first string of `xs` with a null byte.
pub open spec fn first_nul_at(xs: Seq<&str>, k: int) -> bool {
    0 <= k < xs.len() && text_has_nul(xs[k]) && forall|j: int| 0 <= j < k ==> !text_has_nul(xs[j])
}

/// An array of foreign strings ready to be handed to an engine call.
///
/// Its view is the sequence of pointer slots the call sees: one slot holding
/// each string's bytes, followed, in the null-terminated form, by one empty
/// slot as the end marker.
pub struct ForeignStringArray {
    slots: Vec<Option<Vec<u8>>>,
    terminated: bool,
}

/// The bytes held by an optional buffer.
pub open spec fn optional_bytes(b: Option<Vec<u8>>) -> Option<Seq<u8>> {
    match b {
        Some(v) => Some(v@),
        None => None,
    }
}

impl View for ForeignStringArray {
    type V = Seq<Option<Seq<u8>>>;

    closed spec fn view(&self) -> Seq<Option<Seq<u8>>> {
        Seq::new(self.slots@.len(), |i: int| optional_bytes(self.slots@[i]))
    }
}

impl ForeignStringArray {
    /// Every slot but an end marker holds a well-formed foreign string; the
    /// null-terminated form ends in exactly one empty slot.
    pub closed spec fn wf(&self) -> bool {
        &&& forall|i: int|
            0 <= i < self.slots@.len() ==> match #[trigger] self.slots@[i] {
                Some(b) => is_foreign_string(b@),
                None => self.terminated && i == self.slots@.len() - 1,
            }
        &&& self.terminated ==> self.slots@.len() > 0 && self.slots@.last() is None
    }

    /// Whether the array ends in an empty marker slot.
    pub closed spec fn spec_is_null_terminated(&self) -> bool {
        self.terminated
    }

    /// The number of strings, not counting an end marker.
    pub closed spec fn spec_count(&self) -> int {
        if self.terminated {
            self.slots@.len() - 1
        } else {
            self.slots@.len() as int
        }
    }

    /// The number of slots, the end marker included.
    pub fn len(&self) -> (r: usize)
        ensures
            r == self@.len(),
    {
        self.slots.len()
    }

    /// The number of strings, which a counted call takes beside the array.
    pub fn count(&self) -> (r: usize)
        requires
            self.wf(),
        ensures
            r == self.spec_count(),
    {
        if self.terminated {
            self.slots.len() - 1
        } else {
            self.slots.len()
        }
    }

    /// Whether the array ends in an empty marker slot.
    pub fn is_null_terminated(&self) -> (r: bool)
        ensures
            r == self.spec_is_null_terminated(),
    {
        self.terminated
    }

    /// The bytes in slot `i`, or `None` for the end marker.
    pub fn slot(&self, i: usize) -> (r: Option<&Vec<u8>>)
        requires
            i < self@.len(),
        ensures
            r is None <==> self@[i as int] is None,
            r matches Some(b) ==> self@[i as int] == Some(b@),
    {
        match &self.slots[i] {
            Some(b) => Some(b),
            None => None,
        }
    }
}

/// Encodes each string of `xs` in order, stopping at the first one that holds
/// a null byte; the null-terminated form then gets its end marker.
fn encode_all(xs: &[&str], terminated: bool) -> (r: Result<ForeignStringArray, RrdError>)
    ensures
        r is Ok <==> forall|i: int| 0 <= i < xs@.len() ==> !text_has_nul(#[trigger] xs@[i]),
        r matches Ok(a) ==> a.wf() && a.terminated == terminated && a@ == (if terminated {
            counted_slots(xs@).push(None)
        } else {
            counted_slots(xs@)
        }),
        r matches Err(e) ==> exists|k: int| first_nul_at(xs@, k) && e == (RrdError::InvalidString { index: k as usize }),
{
    let mut slots: Vec<Option<Vec<u8>>> = Vec::new();
    let mut i: usize = 0;
    while i < xs.len()
        invariant
            i <= xs@.len(),
            slots@.len() == i,
            forall|j: int| 0 <= j < i ==> !text_has_nul(#[trigger] xs@[j]),
            forall|j: int| 0 <= j < i ==> optional_bytes(#[trigger] slots@[j]) == Some(foreign_bytes(xs@[j]@)),
        decreases xs@.len() - i,
    {
        match encode_foreign(xs[i]) {
            Some(b) => {
                slots.push(Some(b));
            },
            None => {
                assert(first_nul_at(xs@, i as int));
                return Err(RrdError::InvalidString { index: i });
            },
        }
        i = i + 1;
    }
    if terminated {
        slots.push(None);
    }
    let a = ForeignStringArray { slots, terminated };
    assert forall|j: int| 0 <= j < a.slots@.len() implies match #[trigger] a.slots@[j] {
        Some(b) => is_foreign_string(b@),
        None => a.terminated && j == a.slots@.len() - 1,
    } by {
        if j < xs@.len() {
            let b = a.slots@[j]->Some_0;
            assert(optional_bytes(a.slots@[j]) == Some(foreign_bytes(xs@[j]@)));
            assert(b@.drop_last() =~= encode_utf8(xs@[j]@));
        }
    }
    if terminated {
        assert(a@ =~= counted_slots(xs@).push(None));
    } else {
        assert(a@ =~= counted_slots(xs@));
    }
    Ok(a)
}

/// Builds a counted array from `xs`: one slot per string, in order, no end
/// marker. Fails with `InvalidString` naming the first string that holds a
/// null byte.
pub fn make_counted_array(xs: &[&str]) -> (r: Result<ForeignStringArray, RrdError>)
    ensures
        r is Ok <==> forall|i: int| 0 <= i < xs@.len() ==> !text_has_nul(#[trigger] xs@[i]),
        r matches Ok(a) ==> a.wf() && !a.spec_is_null_terminated() && a@ == counted_slots(xs@),
        r matches Ok(a) ==> a@.len() == xs@.len() && a.spec_count() == xs@.len(),
        r matches Err(e) ==> exists|k: int| first_nul_at(xs@, k) && e == (RrdError::InvalidString { index: k as usize }),
{
    encode_all(xs, false)
}

/// Builds a null-terminated array from `xs`: one slot per string, in order,
/// then one empty marker slot. Fails with `InvalidString` naming the first
/// string that holds a null byte.
pub fn make_null_terminated_array(xs: &[&str]) -> (r: Result<ForeignStringArray, RrdError>)
    ensures
        r is Ok <==> forall|i: int| 0 <= i < xs@.len() ==> !text_has_nul(#[trigger] xs@[i]),
        r matches Ok(a) ==> a.wf() && a.spec_is_null_terminated() && a@ == counted_slots(xs@).push(None),
        r matches Ok(a) ==> a@.len() == xs@.len() + 1 && a.spec_count() == xs@.len(),
        r matches Ok(a) ==> a@.last() is None && forall|i: int| 0 <= i < xs@.len() ==> a@[i] is Some,
        r matches Err(e) ==> exists|k: int| first_nul_at(xs@, k) && e == (RrdError::InvalidString { index: k as usize }),
{
    encode_all(xs, true)
}

/// Every slot built from strings without a null byte reads back as the
/// string it was built from: a well-formed foreign string whose body is valid
/// UTF-8 and decodes to the original characters.
pub proof fn lemma_slots_round_trip(xs: Seq<&str>)
    requires
        forall|i: int| 0 <= i < xs.len() ==> !text_has_nul(#[trigger] xs[i]),
    ensures
        forall|i: int|
            0 <= i < xs.len() ==> {
                let b = (#[trigger] counted_slots(xs)[i])->Some_0;
                &&& counted_slots(xs)[i] is Some
                &&& is_foreign_string(b)
                &&& valid_utf8(b.drop_last())
                &&& decode_utf8(b.drop_last()) == xs[i]@
            },
{
    assert forall|i: int| 0 <= i < xs.len() implies {
        let b = (#[trigger] counted_slots(xs)[i])->Some_0;
        &&& counted_slots(xs)[i] is Some
        &&& is_foreign_string(b)
        &&& valid_utf8(b.drop_last())
        &&& decode_utf8(b.drop_last()) == xs[i]@
    } by {
        assert(!text_has_nul(xs[i]));
        lemma_foreign_round_trip(xs[i]@);
    }
}

} // verus!

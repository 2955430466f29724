//! Device identity and the discovery match.
//!
//! A protocol version is identified by a (vendor id, product id, logical
//! interface index) triple. Discovery scans candidate device nodes in the
//! order the OS lists them; a candidate matches when its bus type is USB,
//! its vendor and product ids equal the triple's, and its physical-address
//! string ends with `input<interface_index>` in decimal. The first matching
//! candidate wins; when none matches, discovery fails with `NotFound`.
//!
//! The scan itself (directory listing, opening nodes, metadata ioctls) is
//! I/O and lives outside the library; this module holds the matching rule
//! and the first-match selection over the scanned metadata.

use vstd::prelude::*;

verus! {

/// Identifying triple of one protocol version.
#[derive(Debug, Clone, Copy, PartialEq, Eq, Structural)]
pub struct DeviceIdentifier {
    pub vendor_id: i16,
    pub product_id: i16,
    pub interface: i16,
}

/// Bus-type code of USB devices, as the raw HID metadata reports it.
pub const BUS_USB: u32 = 3;

/// Metadata of one scanned candidate device node, as plain values: bus
/// type code, vendor and product ids, and the physical-address string as
/// its bytes.
#[derive(Debug, Clone)]
pub struct CandidateInfo {
    pub bus_type: u32,
    pub vendor_id: i16,
    pub product_id: i16,
    pub physical_address: Vec<u8>,
}

/// Decimal digits of `n > 0`, most significant first, as ASCII bytes.
pub open spec fn spec_udigits(n: int) -> Seq<u8>
    decreases n,
{
    if n <= 0 {
        Seq::empty()
    } else {
        spec_udigits(n / 10).push((n % 10 + 0x30) as u8)
    }
}

/// Decimal rendering of `n` as ASCII bytes: no leading zeros, a leading
/// `-` when `n` is negative.
pub open spec fn spec_decimal(n: int) -> Seq<u8> {
    if n == 0 {
        seq![0x30u8]
    } else if n < 0 {
        seq![0x2Du8] + spec_udigits(-n)
    } else {
        spec_udigits(n)
    }
}

/// The bytes of the literal `input`.
pub open spec fn spec_input_marker() -> Seq<u8> {
    seq![105u8, 110u8, 112u8, 117u8, 116u8]
}

/// The physical-address suffix that identifies logical interface
/// `interface`: the bytes of `input` followed by the interface index in
/// decimal.
pub open spec fn spec_interface_suffix(interface: int) -> Seq<u8> {
    spec_input_marker() + spec_decimal(interface)
}

/// True when `tail` is a suffix of `s`.
pub open spec fn spec_is_suffix(tail: Seq<u8>, s: Seq<u8>) -> bool {
    tail.len() <= s.len() && s.subrange(s.len() - tail.len(), s.len() as int) == tail
}

/// The discovery predicate: a candidate matches an identifier when the bus
/// is USB, vendor and product ids are equal, and the physical address ends
/// with the interface suffix.
pub open spec fn spec_candidate_matches(c: CandidateInfo, id: DeviceIdentifier) -> bool {
    &&& c.bus_type == BUS_USB
    &&& c.vendor_id == id.vendor_id
    &&& c.product_id == id.product_id
    &&& spec_is_suffix(spec_interface_suffix(id.interface as int), c.physical_address@)
}

/// Index of the first candidate at or after `s` that matches `id`.
pub open spec fn spec_first_match_from(
    cands: Seq<CandidateInfo>,
    id: DeviceIdentifier,
    s: int,
) -> Option<int>
    decreases cands.len() - s,
{
    if s < 0 || s >= cands.len() {
        None
    } else if spec_candidate_matches(cands[s], id) {
        Some(s)
    } else {
        spec_first_match_from(cands, id, s + 1)
    }
}

/// Index of the first candidate that matches `id`, if any.
pub open spec fn spec_first_match(cands: Seq<CandidateInfo>, id: DeviceIdentifier) -> Option<int> {
    spec_first_match_from(cands, id, 0)
}

/// Discovery failure: no scanned candidate matched.
#[derive(Debug, Clone, Copy, PartialEq, Eq, Structural)]
pub enum DiscoveryError {
    NotFound,
}

impl DiscoveryError {
    /// Descriptive message of the failure.
    pub fn message(&self) -> (m: String)
        ensures
            m@ == "failed to find hidraw file matching device"@,
    {
        "failed to find hidraw file matching device".to_owned()
    }
}

/// Appends the decimal digits of `n` to `out`.
fn push_udigits(n: u32, out: &mut Vec<u8>)
    ensures
        final(out)@ == old(out)@ + spec_udigits(n as int),
    decreases n,
{
    if n == 0 {
        assert(out@ =~= old(out)@ + spec_udigits(0));
    } else {
        let ghost before = out@;
        push_udigits(n / 10, out);
        out.push((n % 10) as u8 + 0x30);
        assert(out@ =~= before + spec_udigits(n as int));
    }
}

/// The decimal rendering of `n` as ASCII bytes, as `format!` would write
/// it: no leading zeros, a leading `-` when `n` is negative.
pub fn decimal_bytes(n: i16) -> (v: Vec<u8>)
    ensures
        v@ == spec_decimal(n as int),
{
    let mut v: Vec<u8> = Vec::new();
    if n == 0 {
        v.push(0x30);
        assert(v@ =~= spec_decimal(0));
    } else if n < 0 {
        v.push(0x2D);
        let ghost before = v@;
        let wide: i32 = -(n as i32);
        push_udigits(wide as u32, &mut v);
        assert(v@ =~= spec_decimal(n as int));
    } else {
        push_udigits(n as u32, &mut v);
    }
    v
}

/// The expected physical-address suffix `input<interface>` for an
/// identifier's interface index.
pub fn interface_suffix(interface: i16) -> (v: Vec<u8>)
    ensures
        v@ == spec_interface_suffix(interface as int),
{
    let mut v: Vec<u8> = Vec::new();
    v.push(105);
    v.push(110);
    v.push(112);
    v.push(117);
    v.push(116);
    assert(v@ =~= spec_input_marker());
    let ghost marker = v@;
    let digits = decimal_bytes(interface);
    let mut i: usize = 0;
    while i < digits.len()
        invariant
            i <= digits.len(),
            digits@ == spec_decimal(interface as int),
            v@ == marker + digits@.subrange(0, i as int),
        decreases digits.len() - i,
    {
        v.push(digits[i]);
        i = i + 1;
        assert(v@ =~= marker + digits@.subrange(0, i as int));
    }
    assert(digits@.subrange(0, digits@.len() as int) =~= digits@);
    v
}

/// True when `hay` ends with the bytes of `tail`.
pub fn ends_with_bytes(hay: &Vec<u8>, tail: &Vec<u8>) -> (b: bool)
    ensures
        b == spec_is_suffix(tail@, hay@),
{
    if tail.len() > hay.len() {
        return false;
    }
    let start: usize = hay.len() - tail.len();
    let mut i: usize = 0;
    while i < tail.len()
        invariant
            i <= tail.len(),
            tail.len() <= hay.len(),
            start == hay.len() - tail.len(),
            forall|j: int| 0 <= j < i ==> hay@[start + j] == tail@[j],
        decreases tail.len() - i,
    {
        if hay[start + i] != tail[i] {
            assert(hay@.subrange(hay@.len() - tail@.len(), hay@.len() as int)[i as int] != tail@[i as int]);
            return false;
        }
        i = i + 1;
    }
    assert(hay@.subrange(hay@.len() - tail@.len(), hay@.len() as int) =~= tail@);
    true
}

/// True when the candidate's metadata matches the identifier: USB bus,
/// equal vendor and product ids, and a physical address ending with the
/// interface suffix.
pub fn candidate_matches(c: &CandidateInfo, id: &DeviceIdentifier) -> (b: bool)
    ensures
        b == spec_candidate_matches(*c, *id),
{
    if c.bus_type != BUS_USB {
        return false;
    }
    if c.vendor_id != id.vendor_id || c.product_id != id.product_id {
        return false;
    }
    let suffix = interface_suffix(id.interface);
    ends_with_bytes(&c.physical_address, &suffix)
}

/// Selects the device among the scanned candidates: the first one, in scan
/// order, whose metadata matches the identifier. Returns `NotFound` if and
/// only if no candidate matches.
pub fn discover(candidates: &Vec<CandidateInfo>, id: &DeviceIdentifier) -> (r: Result<
    usize,
    DiscoveryError,
>)
    ensures
        match r {
            Ok(i) => i < candidates@.len() && spec_candidate_matches(candidates@[i as int], *id)
                && (forall|j: int|
                0 <= j < i ==> !spec_candidate_matches(candidates@[j], *id)) && spec_first_match(
                candidates@,
                *id,
            ) == Some(i as int),
            Err(e) => e == DiscoveryError::NotFound && (forall|j: int|
                0 <= j < candidates@.len() ==> !spec_candidate_matches(candidates@[j], *id))
                && spec_first_match(candidates@, *id) is None,
        },
{
    let mut i: usize = 0;
    while i < candidates.len()
        invariant
            i <= candidates@.len(),
            forall|j: int| 0 <= j < i ==> !spec_candidate_matches(candidates@[j], *id),
        decreases candidates.len() - i,
    {
        if candidate_matches(&candidates[i], id) {
            proof {
                lemma_first_match_found(candidates@, *id, 0, i as int);
            }
            return Ok(i);
        }
        i = i + 1;
    }
    proof {
        lemma_first_match_none(candidates@, *id, 0);
    }
    Err(DiscoveryError::NotFound)
}

/// When entry `i` matches and none before it (at or after `s`) does, the
/// first match from `s` is `i`.
proof fn lemma_first_match_found(cands: Seq<CandidateInfo>, id: DeviceIdentifier, s: int, i: int)
    requires
        0 <= s <= i < cands.len(),
        spec_candidate_matches(cands[i], id),
        forall|j: int| s <= j < i ==> !spec_candidate_matches(cands[j], id),
    ensures
        spec_first_match_from(cands, id, s) == Some(i),
    decreases i - s,
{
    if s < i {
        lemma_first_match_found(cands, id, s + 1, i);
    }
}

/// When no entry at or after `s` matches, there is no first match from `s`.
proof fn lemma_first_match_none(cands: Seq<CandidateInfo>, id: DeviceIdentifier, s: int)
    requires
        0 <= s,
        forall|j: int| s <= j < cands.len() ==> !spec_candidate_matches(cands[j], id),
    ensures
        spec_first_match_from(cands, id, s) is None,
    decreases cands.len() - s,
{
    if s < cands.len() {
        lemma_first_match_none(cands, id, s + 1);
    }
}

/// What a first match means: the matched entry matches, no earlier entry
/// does, and an absent first match means no entry matches at all.
pub proof fn lemma_first_match_characterization(cands: Seq<CandidateInfo>, id: DeviceIdentifier)
    ensures
        match spec_first_match(cands, id) {
            Some(i) => 0 <= i < cands.len() && spec_candidate_matches(cands[i], id) && forall|
                j: int,
            | 0 <= j < i ==> !spec_candidate_matches(cands[j], id),
            None => forall|j: int| 0 <= j < cands.len() ==> !spec_candidate_matches(cands[j], id),
        },
{
    lemma_first_match_inv(cands, id, 0);
}

proof fn lemma_first_match_inv(cands: Seq<CandidateInfo>, id: DeviceIdentifier, s: int)
    requires
        0 <= s,
    ensures
        match spec_first_match_from(cands, id, s) {
            Some(i) => s <= i < cands.len() && spec_candidate_matches(cands[i], id) && forall|
                j: int,
            | s <= j < i ==> !spec_candidate_matches(cands[j], id),
            None => forall|j: int| s <= j < cands.len() ==> !spec_candidate_matches(cands[j], id),
        },
    decreases cands.len() - s,
{
    if s < cands.len() && !spec_candidate_matches(cands[s], id) {
        lemma_first_match_inv(cands, id, s + 1);
    }
}

/// Discovery is indifferent to non-matching candidates scanned first: with
/// any run of non-matching candidates put in front, the selected candidate
/// is the same one, and a scan that found nothing still finds nothing.
pub proof fn lemma_discovery_skips_nonmatching(
    pre: Seq<CandidateInfo>,
    rest: Seq<CandidateInfo>,
    id: DeviceIdentifier,
)
    requires
        forall|j: int| 0 <= j < pre.len() ==> !spec_candidate_matches(pre[j], id),
    ensures
        match spec_first_match(rest, id) {
            Some(k) => spec_first_match(pre + rest, id) == Some(pre.len() + k) && (pre + rest)[
                pre.len() + k
            ] == rest[k],
            None => spec_first_match(pre + rest, id) is None,
        },
{
    let all = pre + rest;
    lemma_first_match_inv(rest, id, 0);
    match spec_first_match(rest, id) {
        Some(k) => {
            assert(all[pre.len() + k] == rest[k]);
            assert forall|j: int| 0 <= j < pre.len() + k implies !spec_candidate_matches(
                all[j],
                id,
            ) by {
                if j < pre.len() {
                    assert(all[j] == pre[j]);
                } else {
                    assert(all[j] == rest[j - pre.len()]);
                }
            }
            lemma_first_match_found(all, id, 0, pre.len() + k);
        },
        None => {
            assert forall|j: int| 0 <= j < all.len() implies !spec_candidate_matches(
                all[j],
                id,
            ) by {
                if j < pre.len() {
                    assert(all[j] == pre[j]);
                } else {
                    assert(all[j] == rest[j - pre.len()]);
                }
            }
            lemma_first_match_none(all, id, 0);
        },
    }
}

} // verus!

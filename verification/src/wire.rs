//! The binary wire format of the feed: base-128 varints, little-endian
//! fixed-width scalars, and tagged fields (tag = field number * 8 + wire
//! type). A message payload is a concatenation of tagged fields; nested
//! messages and byte strings travel as length-delimited fields.
//!
//! Each executable parser is proved equal to a spec-level parsing function
//! over the byte sequence, so decoding is deterministic and all-or-nothing
//! by construction.

use vstd::prelude::*;

verus! {

/// The decoded payload of one tagged field.
pub enum WireValue {
    Varint(u64),
    Fixed64(u64),
    Bytes(Vec<u8>),
    Fixed32(u32),
}

/// One tagged field: its field number and its payload.
pub struct RawField {
    pub num: u64,
    pub val: WireValue,
}

pub enum WireValueV {
    Varint(u64),
    Fixed64(u64),
    Bytes(Seq<u8>),
    Fixed32(u32),
}

pub struct RawFieldV {
    pub num: u64,
    pub val: WireValueV,
}

impl View for WireValue {
    type V = WireValueV;

    open spec fn view(&self) -> WireValueV {
        match self {
            WireValue::Varint(v) => WireValueV::Varint(*v),
            WireValue::Fixed64(v) => WireValueV::Fixed64(*v),
            WireValue::Bytes(v) => WireValueV::Bytes(v@),
            WireValue::Fixed32(v) => WireValueV::Fixed32(*v),
        }
    }
}

impl View for RawField {
    type V = RawFieldV;

    open spec fn view(&self) -> RawFieldV {
        RawFieldV { num: self.num, val: self.val@ }
    }
}

/// The view of a parsed field list.
pub open spec fn fields_v(fs: Seq<RawField>) -> Seq<RawFieldV> {
    fs.map_values(|f: RawField| f@)
}

/// The unbounded value of the base-128 varint starting at `i`, and the
/// position just past it. `None` when truncated or out of range.
pub open spec fn varint_at(b: Seq<u8>, i: int) -> Option<(nat, int)>
    decreases b.len() - i,
{
    if i < 0 || i >= b.len() {
        None
    } else if b[i] < 128 {
        Some((b[i] as nat, i + 1))
    } else {
        match varint_at(b, i + 1) {
            Some(r) => Some(((b[i] - 128) as nat + 128 * r.0, r.1)),
            None => None,
        }
    }
}

/// A machine varint: at most ten bytes and a value below 2^64; anything
/// longer or larger is malformed.
pub open spec fn varint64_at(b: Seq<u8>, i: int) -> Option<(u64, int)> {
    match varint_at(b, i) {
        Some(r) => if r.1 - i <= 10 && r.0 < 0x1_0000_0000_0000_0000 {
            Some((r.0 as u64, r.1))
        } else {
            None
        },
        None => None,
    }
}

pub proof fn lemma_varint_at_bounds(b: Seq<u8>, i: int)
    ensures
        match varint_at(b, i) {
            Some(r) => i + 1 <= r.1 <= b.len(),
            None => true,
        },
    decreases b.len() - i,
{
    if 0 <= i && i < b.len() && b[i] >= 128 {
        lemma_varint_at_bounds(b, i + 1);
    }
}

/// 128^k: the place value of the k-th varint byte.
pub open spec fn pow128(k: nat) -> nat
    decreases k,
{
    if k == 0 {
        1
    } else {
        128 * pow128((k - 1) as nat)
    }
}

proof fn lemma_pow128_values()
    ensures
        pow128(0) == 1,
        pow128(1) == 0x80,
        pow128(2) == 0x4000,
        pow128(3) == 0x20_0000,
        pow128(4) == 0x1000_0000,
        pow128(5) == 0x8_0000_0000,
        pow128(6) == 0x400_0000_0000,
        pow128(7) == 0x2_0000_0000_0000,
        pow128(8) == 0x100_0000_0000_0000,
        pow128(9) == 0x8000_0000_0000_0000,
{
    assert(pow128(0) == 1);
    assert(pow128(1) == 0x80);
    assert(pow128(2) == 0x4000);
    assert(pow128(3) == 0x20_0000);
    assert(pow128(4) == 0x1000_0000);
    assert(pow128(5) == 0x8_0000_0000);
    assert(pow128(6) == 0x400_0000_0000);
    assert(pow128(7) == 0x2_0000_0000_0000);
    assert(pow128(8) == 0x100_0000_0000_0000);
    assert(pow128(9) == 0x8000_0000_0000_0000);
}

/// Parse a varint; equal to `varint64_at` on the byte sequence.
pub fn parse_varint(b: &Vec<u8>, start: usize) -> (r: Option<(u64, usize)>)
    ensures
        match r {
            Some(p) => varint64_at(b@, start as int) == Some((p.0, p.1 as int)) && start < p.1
                <= b@.len(),
            None => varint64_at(b@, start as int) is None,
        },
{
    if start >= b.len() {
        assert(varint_at(b@, start as int) is None);
        return None;
    }
    let mut i = start;
    let mut acc: u64 = 0;
    let mut mult: u64 = 1;
    let mut count: usize = 0;
    loop
        invariant
            start <= i <= b@.len(),
            i == start + count,
            count <= 9,
            mult == pow128(count as nat),
            acc < mult,
            (match varint_at(b@, i as int) {
                Some(r) => varint_at(b@, start as int) == Some(
                    ((acc + mult * r.0) as nat, r.1),
                ),
                None => varint_at(b@, start as int) is None,
            }),
        decreases b@.len() - i,
    {
        proof {
            lemma_pow128_values();
        }
        if i >= b.len() {
            assert(varint_at(b@, i as int) is None);
            return None;
        }
        let byte = b[i];
        if byte < 128 {
            let p = byte as u64;
            assert(varint_at(b@, i as int) == Some((p as nat, i + 1 as int)));
            if count == 9 && p >= 2 {
                assert(acc + mult * p >= 0x1_0000_0000_0000_0000) by (nonlinear_arith)
                    requires
                        mult == 0x8000_0000_0000_0000,
                        p >= 2,
                        acc >= 0,
                ;
                return None;
            }
            assert(acc + mult * p < 0x1_0000_0000_0000_0000) by (nonlinear_arith)
                requires
                    acc < mult,
                    p < 128,
                    0 < mult,
                    mult <= 0x100_0000_0000_0000 || (mult <= 0x8000_0000_0000_0000 && p <= 1),
            ;
            let total = acc + mult * p;
            return Some((total, i + 1));
        } else {
            if count == 9 {
                proof {
                    lemma_varint_at_bounds(b@, i as int + 1);
                }
                return None;
            }
            let p = (byte - 128) as u64;
            proof {
                let r1 = varint_at(b@, i as int + 1);
                if r1 is Some {
                    let (v, j) = r1->Some_0;
                    assert(varint_at(b@, i as int) == Some(((p + 128 * v) as nat, j)));
                    assert((acc + mult * ((p + 128 * v) as nat)) == ((acc + mult * p) + (mult
                        * 128) * v)) by (nonlinear_arith);
                } else {
                    assert(varint_at(b@, i as int) is None);
                }
            }
            assert(acc + mult * p < 128 * mult) by (nonlinear_arith)
                requires
                    acc < mult,
                    p < 128,
                    0 < mult,
            ;
            acc = acc + mult * p;
            mult = mult * 128;
            count = count + 1;
            i = i + 1;
        }
    }
}

/// The little-endian 32-bit scalar at `i`, and the position just past it.
pub open spec fn fixed32_at(b: Seq<u8>, i: int) -> Option<(u32, int)> {
    if 0 <= i && i + 4 <= b.len() {
        Some(
            (
                (b[i] as nat + 0x100 * (b[i + 1] as nat) + 0x1_0000 * (b[i + 2] as nat)
                    + 0x100_0000 * (b[i + 3] as nat)) as u32,
                i + 4,
            ),
        )
    } else {
        None
    }
}

/// The little-endian 64-bit scalar at `i`, and the position just past it.
pub open spec fn fixed64_at(b: Seq<u8>, i: int) -> Option<(u64, int)> {
    if 0 <= i && i + 8 <= b.len() {
        Some(
            (
                (b[i] as nat + 0x100 * (b[i + 1] as nat) + 0x1_0000 * (b[i + 2] as nat)
                    + 0x100_0000 * (b[i + 3] as nat) + 0x1_0000_0000 * (b[i + 4] as nat)
                    + 0x100_0000_0000 * (b[i + 5] as nat) + 0x1_0000_0000_0000 * (b[i + 6] as nat)
                    + 0x100_0000_0000_0000 * (b[i + 7] as nat)) as u64,
                i + 8,
            ),
        )
    } else {
        None
    }
}

/// Parse a little-endian 32-bit scalar; equal to `fixed32_at`.
pub fn parse_fixed32(b: &Vec<u8>, start: usize) -> (r: Option<(u32, usize)>)
    ensures
        match r {
            Some(p) => fixed32_at(b@, start as int) == Some((p.0, p.1 as int)) && start < p.1
                <= b@.len(),
            None => fixed32_at(b@, start as int) is None,
        },
{
    if b.len() >= 4 && start <= b.len() - 4 {
        let v = b[start] as u32 + 0x100 * (b[start + 1] as u32) + 0x1_0000 * (b[start + 2] as u32)
            + 0x100_0000 * (b[start + 3] as u32);
        Some((v, start + 4))
    } else {
        None
    }
}

/// Parse a little-endian 64-bit scalar; equal to `fixed64_at`.
pub fn parse_fixed64(b: &Vec<u8>, start: usize) -> (r: Option<(u64, usize)>)
    ensures
        match r {
            Some(p) => fixed64_at(b@, start as int) == Some((p.0, p.1 as int)) && start < p.1
                <= b@.len(),
            None => fixed64_at(b@, start as int) is None,
        },
{
    if b.len() >= 8 && start <= b.len() - 8 {
        let v = b[start] as u64 + 0x100 * (b[start + 1] as u64) + 0x1_0000 * (b[start + 2] as u64)
            + 0x100_0000 * (b[start + 3] as u64) + 0x1_0000_0000 * (b[start + 4] as u64)
            + 0x100_0000_0000 * (b[start + 5] as u64) + 0x1_0000_0000_0000 * (b[start + 6] as u64)
            + 0x100_0000_0000_0000 * (b[start + 7] as u64);
        Some((v, start + 8))
    } else {
        None
    }
}

/// A copy of `b[from..to]`.
pub fn copy_range(b: &Vec<u8>, from: usize, to: usize) -> (r: Vec<u8>)
    requires
        from <= to <= b@.len(),
    ensures
        r@ == b@.subrange(from as int, to as int),
{
    let mut r: Vec<u8> = Vec::new();
    let mut k = from;
    while k < to
        invariant
            from <= k <= to <= b@.len(),
            r@ == b@.subrange(from as int, k as int),
        decreases to - k,
    {
        r.push(b[k]);
        assert(r@ =~= b@.subrange(from as int, k + 1 as int));
        k = k + 1;
    }
    r
}

/// A copy of the whole byte string.
pub fn copy_bytes(b: &Vec<u8>) -> (r: Vec<u8>)
    ensures
        r@ == b@,
{
    let r = copy_range(b, 0, b.len());
    assert(b@.subrange(0, b@.len() as int) =~= b@);
    r
}

/// The tagged field starting at `i`, and the position just past it.
/// Malformed tags, unknown wire types, field number zero, and payloads that
/// run past the end of the buffer are all `None`.
pub open spec fn field_at(b: Seq<u8>, i: int) -> Option<(RawFieldV, int)> {
    match varint64_at(b, i) {
        None => None,
        Some((tag, j)) => {
            let num = tag / 8;
            let wt = tag % 8;
            if num == 0 {
                None
            } else if wt == 0 {
                match varint64_at(b, j) {
                    Some((v, k)) => Some((RawFieldV { num, val: WireValueV::Varint(v) }, k)),
                    None => None,
                }
            } else if wt == 1 {
                match fixed64_at(b, j) {
                    Some((v, k)) => Some((RawFieldV { num, val: WireValueV::Fixed64(v) }, k)),
                    None => None,
                }
            } else if wt == 2 {
                match varint64_at(b, j) {
                    Some((len, k)) => if k + len <= b.len() {
                        Some(
                            (
                                RawFieldV { num, val: WireValueV::Bytes(b.subrange(k, k + len)) },
                                k + len,
                            ),
                        )
                    } else {
                        None
                    },
                    None => None,
                }
            } else if wt == 5 {
                match fixed32_at(b, j) {
                    Some((v, k)) => Some((RawFieldV { num, val: WireValueV::Fixed32(v) }, k)),
                    None => None,
                }
            } else {
                None
            }
        },
    }
}

/// Parse one tagged field; equal to `field_at`.
pub fn parse_field(b: &Vec<u8>, start: usize) -> (r: Option<(RawField, usize)>)
    ensures
        match r {
            Some(p) => field_at(b@, start as int) == Some((p.0@, p.1 as int)) && start < p.1
                <= b@.len(),
            None => field_at(b@, start as int) is None,
        },
{
    match parse_varint(b, start) {
        None => None,
        Some((tag, j)) => {
            let num = tag / 8;
            let wt = tag % 8;
            if num == 0 {
                None
            } else if wt == 0 {
                match parse_varint(b, j) {
                    None => None,
                    Some((v, k)) => Some((RawField { num, val: WireValue::Varint(v) }, k)),
                }
            } else if wt == 1 {
                match parse_fixed64(b, j) {
                    None => None,
                    Some((v, k)) => Some((RawField { num, val: WireValue::Fixed64(v) }, k)),
                }
            } else if wt == 2 {
                match parse_varint(b, j) {
                    None => None,
                    Some((len, k)) => {
                        if len <= (b.len() - k) as u64 {
                            let end = k + (len as usize);
                            let payload = copy_range(b, k, end);
                            Some((RawField { num, val: WireValue::Bytes(payload) }, end))
                        } else {
                            None
                        }
                    },
                }
            } else if wt == 5 {
                match parse_fixed32(b, j) {
                    None => None,
                    Some((v, k)) => Some((RawField { num, val: WireValue::Fixed32(v) }, k)),
                }
            } else {
                None
            }
        },
    }
}

/// The field list from `i` to the end of the buffer: `None` as soon as one
/// field is malformed, otherwise all fields in order.
pub open spec fn fields_from(b: Seq<u8>, i: int) -> Option<Seq<RawFieldV>>
    decreases b.len() - i,
{
    if i < 0 || i > b.len() {
        None
    } else if i == b.len() {
        Some(Seq::empty())
    } else {
        match field_at(b, i) {
            None => None,
            Some((f, j)) => if i < j <= b.len() {
                match fields_from(b, j) {
                    Some(rest) => Some(seq![f] + rest),
                    None => None,
                }
            } else {
                None
            },
        }
    }
}

/// The whole buffer as a field list; the entry point of the wire grammar.
pub open spec fn spec_fields(b: Seq<u8>) -> Option<Seq<RawFieldV>> {
    fields_from(b, 0)
}

/// Parse a whole message payload into its field list; equal to
/// `spec_fields`.
pub fn parse_fields(b: &Vec<u8>) -> (r: Option<Vec<RawField>>)
    ensures
        match r {
            Some(fs) => spec_fields(b@) == Some(fields_v(fs@)),
            None => spec_fields(b@) is None,
        },
{
    let mut fs: Vec<RawField> = Vec::new();
    let mut i: usize = 0;
    loop
        invariant
            i <= b@.len(),
            (match fields_from(b@, i as int) {
                Some(rest) => fields_from(b@, 0) == Some(fields_v(fs@) + rest),
                None => fields_from(b@, 0) is None,
            }),
        decreases b@.len() - i,
    {
        if i == b.len() {
            assert(fields_from(b@, i as int) == Some(Seq::<RawFieldV>::empty()));
            assert(fields_v(fs@) + Seq::<RawFieldV>::empty() =~= fields_v(fs@));
            return Some(fs);
        }
        match parse_field(b, i) {
            None => {
                assert(fields_from(b@, i as int) is None);
                return None;
            },
            Some((f, j)) => {
                proof {
                    let rest0 = fields_from(b@, i as int);
                    let rest1 = fields_from(b@, j as int);
                    if rest1 is Some {
                        assert(rest0 == Some(seq![f@] + rest1->Some_0));
                        assert(fields_v(fs@.push(f)) =~= fields_v(fs@).push(f@));
                        assert(fields_v(fs@) + (seq![f@] + rest1->Some_0) =~= fields_v(
                            fs@.push(f),
                        ) + rest1->Some_0);
                    } else {
                        assert(fields_from(b@, i as int) is None);
                    }
                }
                fs.push(f);
                i = j;
            },
        }
    }
}

} // verus!

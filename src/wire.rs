//! Protocol Buffers wire format: varints, little-endian fixed-width values and
//! the sequence of tagged fields that makes up an encoded message.
use vstd::prelude::*;

verus! {

/// `128^n`.
pub open spec fn pow128(n: nat) -> int
    decreases n,
{
    if n == 0 {
        1
    } else {
        128 * pow128((n - 1) as nat)
    }
}

/// The value of the first `n` bytes of `b` read as base-128 digits, least significant first,
/// ignoring the continuation bit of each byte.
pub open spec fn varint_sum(b: Seq<u8>, n: nat) -> int
    decreases n,
{
    if n == 0 {
        0
    } else {
        varint_sum(b, (n - 1) as nat) + (b[n - 1] % 128) as int * pow128((n - 1) as nat)
    }
}

/// Searching from byte `k`, the length of the varint at the start of `b`: it ends at the first
/// byte below 0x80, within ten bytes, and a tenth byte may only carry the top bit of a `u64`.
pub open spec fn varint_len_from(b: Seq<u8>, k: nat) -> Option<nat>
    decreases 10 - k,
{
    if k >= 10 || k >= b.len() {
        None
    } else if b[k as int] < 128 {
        if k == 9 && b[k as int] >= 2 {
            None
        } else {
            Some(k + 1)
        }
    } else {
        varint_len_from(b, k + 1)
    }
}

/// The varint at the start of `b`: its value and the number of bytes it takes.
pub open spec fn varint(b: Seq<u8>) -> Option<(u64, nat)> {
    match varint_len_from(b, 0) {
        Some(n) => Some((varint_sum(b, n) as u64, n)),
        None => None,
    }
}

proof fn lemma_pow128_mono(a: nat, b: nat)
    requires
        a <= b,
    ensures
        pow128(a) <= pow128(b),
        pow128(a) >= 1,
    decreases b,
{
    if b > 0 {
        if a < b {
            lemma_pow128_mono(a, (b - 1) as nat);
        }
        lemma_pow128_mono(0, (b - 1) as nat);
    }
}

proof fn lemma_pow128_top()
    ensures
        pow128(8) == 0x100_0000_0000_0000,
        pow128(9) == 0x8000_0000_0000_0000,
{
    reveal_with_fuel(pow128, 10);
}

proof fn lemma_varint_len_from_skip(b: Seq<u8>, k: nat)
    requires
        k < 10,
        k < b.len(),
        forall|j: int| 0 <= j <= k ==> b[j] >= 128,
    ensures
        varint_len_from(b, 0) == varint_len_from(b, k + 1),
    decreases k,
{
    if k > 0 {
        lemma_varint_len_from_skip(b, (k - 1) as nat);
    }
}

/// Reads the varint that starts at `pos`.
pub fn read_varint(b: &[u8], pos: usize) -> (r: Option<(u64, usize)>)
    requires
        pos <= b@.len(),
    ensures
        r is None <==> varint(b@.subrange(pos as int, b@.len() as int)) is None,
        r matches Some((v, n)) ==> varint(b@.subrange(pos as int, b@.len() as int)) == Some(
            (v, n as nat),
        ) && 1 <= n <= b@.len() - pos,
{
    let ghost t = b@.subrange(pos as int, b@.len() as int);
    let mut value: u64 = 0;
    let mut p: u64 = 1;
    let mut k: usize = 0;
    while k < 10 && k < b.len() - pos
        invariant
            pos <= b@.len(),
            t == b@.subrange(pos as int, b@.len() as int),
            k <= 9 || (k == 10 && varint_len_from(t, 0) is None),
            value as int == varint_sum(t, k as nat),
            p as int == pow128(k as nat),
            value < p,
            k <= t.len(),
            forall|j: int| 0 <= j < k ==> t[j] >= 128,
            k <= 9 ==> varint_len_from(t, 0) == varint_len_from(t, k as nat),
        decreases 10 - k,
    {
        let byte = b[pos + k];
        proof {
            lemma_pow128_top();
            if k <= 8 {
                lemma_pow128_mono(k as nat, 8);
            }
        }
        assert(t[k as int] == byte);
        proof {
            if k > 0 {
                lemma_varint_len_from_skip(t, (k - 1) as nat);
            }
        }
        assert(varint_len_from(t, 0) == varint_len_from(t, k as nat));
        if byte < 128 {
            if k == 9 && byte >= 2 {
                return None;
            }
            assert((byte as int) * (p as int) + (value as int) < 0x1_0000_0000_0000_0000) by (nonlinear_arith)
                requires
                    value < p,
                    k <= 9,
                    k < 9 ==> byte < 128 && p <= 0x100_0000_0000_0000,
                    k == 9 ==> byte < 2 && p == 0x8000_0000_0000_0000,
            {
            }
            let v = value + (byte as u64) * p;
            assert(varint_sum(t, (k + 1) as nat) == v);
            return Some((v, k + 1));
        }
        if k == 9 {
            proof {
                lemma_varint_len_from_skip(t, 9);
            }
            return None;
        }
        let digit = (byte - 128) as u64;
        assert(digit * p + value < 128 * p && 128 * p <= 0x8000_0000_0000_0000) by (nonlinear_arith)
            requires
                digit < 128,
                value < p,
                p <= 0x100_0000_0000_0000,
        {
        }
        value = value + digit * p;
        p = p * 128;
        k = k + 1;
        proof {
            lemma_varint_len_from_skip(t, (k - 1) as nat);
        }
    }
    None
}

/// A four-byte little-endian unsigned integer at the start of `b`.
pub open spec fn le32(b: Seq<u8>) -> u32 {
    (b[0] as int + 0x100 * b[1] as int + 0x1_0000 * b[2] as int + 0x100_0000 * b[3] as int) as u32
}

/// Reads the four-byte little-endian integer that starts at `pos`.
pub fn read_fixed32(b: &[u8], pos: usize) -> (r: u32)
    requires
        pos + 4 <= b@.len(),
    ensures
        r == le32(b@.subrange(pos as int, b@.len() as int)),
{
    let b0 = b[pos] as u32;
    let b1 = b[pos + 1] as u32;
    let b2 = b[pos + 2] as u32;
    let b3 = b[pos + 3] as u32;
    b0 + 0x100 * b1 + 0x1_0000 * b2 + 0x100_0000 * b3
}

/// Copies `b[start..end]`.
pub fn copy_range(b: &[u8], start: usize, end: usize) -> (r: Vec<u8>)
    requires
        start <= end <= b@.len(),
    ensures
        r@ == b@.subrange(start as int, end as int),
{
    let mut r: Vec<u8> = Vec::new();
    let mut i: usize = start;
    while i < end
        invariant
            start <= i <= end <= b@.len(),
            r@ == b@.subrange(start as int, i as int),
        decreases end - i,
    {
        r.push(b[i]);
        i = i + 1;
        assert(r@ =~= b@.subrange(start as int, i as int));
    }
    r
}

/// The value of one field, by wire type.
pub enum WireValue {
    Varint(u64),
    Fixed64,
    Bytes(Vec<u8>),
    Fixed32(u32),
}

/// What a `WireValue` holds, with the bytes of a length-delimited value as a sequence.
pub enum WireVal {
    Varint(u64),
    Fixed64,
    Bytes(Seq<u8>),
    Fixed32(u32),
}

/// One field of an encoded message: its number and its value.
pub struct Field {
    pub num: u64,
    pub value: WireValue,
}

pub struct FieldView {
    pub num: u64,
    pub value: WireVal,
}

impl View for WireValue {
    type V = WireVal;

    open spec fn view(&self) -> WireVal {
        match self {
            WireValue::Varint(v) => WireVal::Varint(*v),
            WireValue::Fixed64 => WireVal::Fixed64,
            WireValue::Bytes(b) => WireVal::Bytes(b@),
            WireValue::Fixed32(v) => WireVal::Fixed32(*v),
        }
    }
}

impl View for Field {
    type V = FieldView;

    open spec fn view(&self) -> FieldView {
        FieldView { num: self.num, value: self.value@ }
    }
}

pub open spec fn views(fs: Seq<Field>) -> Seq<FieldView> {
    fs.map_values(|f: Field| f@)
}

/// The field at the start of `t` and the number of bytes it takes. The key is a varint
/// that fits in 32 bits, holding the field number (at least 1) above a three-bit wire type:
/// 0 varint, 1 eight bytes, 2 a varint length and that many bytes, 5 four bytes.
/// Group wire types are not part of this format.
pub open spec fn field(t: Seq<u8>) -> Option<(FieldView, nat)> {
    match varint(t) {
        None => None,
        Some((key, n)) => {
            let num = key / 8;
            let rest = t.subrange(n as int, t.len() as int);
            if key > 0xffff_ffff || num == 0 {
                None
            } else if key % 8 == 0 {
                match varint(rest) {
                    Some((v, m)) => Some((FieldView { num, value: WireVal::Varint(v) }, n + m)),
                    None => None,
                }
            } else if key % 8 == 1 {
                if rest.len() >= 8 {
                    Some((FieldView { num, value: WireVal::Fixed64 }, n + 8))
                } else {
                    None
                }
            } else if key % 8 == 2 {
                match varint(rest) {
                    Some((l, m)) => if l <= rest.len() - m {
                        Some(
                            (
                                FieldView {
                                    num,
                                    value: WireVal::Bytes(rest.subrange(m as int, m + l)),
                                },
                                (n + m + l) as nat,
                            ),
                        )
                    } else {
                        None
                    },
                    None => None,
                }
            } else if key % 8 == 5 {
                if rest.len() >= 4 {
                    Some((FieldView { num, value: WireVal::Fixed32(le32(rest)) }, n + 4))
                } else {
                    None
                }
            } else {
                None
            }
        },
    }
}

/// The fields of an encoded message, in order, or `None` where `t` is not a sequence of
/// well-formed fields.
pub open spec fn fields(t: Seq<u8>) -> Option<Seq<FieldView>>
    decreases t.len(),
{
    if t.len() == 0 {
        Some(Seq::empty())
    } else {
        match field(t) {
            Some((f, n)) => if 0 < n <= t.len() {
                match fields(t.subrange(n as int, t.len() as int)) {
                    Some(fs) => Some(seq![f] + fs),
                    None => None,
                }
            } else {
                None
            },
            None => None,
        }
    }
}

/// Reads the field that starts at `pos`.
pub fn read_field(b: &[u8], pos: usize) -> (r: Option<(Field, usize)>)
    requires
        pos <= b@.len(),
    ensures
        match field(b@.subrange(pos as int, b@.len() as int)) {
            Some((f, n)) => r matches Some((g, m)) && g@ == f && m == n,
            None => r is None,
        },
        r matches Some((g, m)) ==> 0 < m <= b@.len() - pos,
{
    let ghost t = b@.subrange(pos as int, b@.len() as int);
    let total = b.len();
    let (key, n) = match read_varint(b, pos) {
        Some(kn) => kn,
        None => return None,
    };
    let num = key / 8;
    let ghost rest = t.subrange(n as int, t.len() as int);
    assert(rest =~= b@.subrange((pos + n) as int, b@.len() as int));
    if key > 0xffff_ffff || num == 0 {
        return None;
    }
    let start = pos + n;
    let kind = key % 8;
    if kind == 0 {
        match read_varint(b, start) {
            Some((v, m)) => {
                Some((Field { num, value: WireValue::Varint(v) }, n + m))
            },
            None => None,
        }
    } else if kind == 1 {
        if total - start >= 8 {
            Some((Field { num, value: WireValue::Fixed64 }, n + 8))
        } else {
            None
        }
    } else if kind == 2 {
        match read_varint(b, start) {
            Some((l, m)) => {
                if l <= (total - start - m) as u64 {
                    let from = start + m;
                    let to = from + l as usize;
                    let bytes = copy_range(b, from, to);
                    assert(bytes@ =~= rest.subrange(m as int, m + l));
                    Some((Field { num, value: WireValue::Bytes(bytes) }, n + m + l as usize))
                } else {
                    None
                }
            },
            None => None,
        }
    } else if kind == 5 {
        if total - start >= 4 {
            let v = read_fixed32(b, start);
            Some((Field { num, value: WireValue::Fixed32(v) }, n + 4))
        } else {
            None
        }
    } else {
        None
    }
}

/// `o` with `pre` put in front of the sequence it holds.
pub open spec fn prepend(pre: Seq<FieldView>, o: Option<Seq<FieldView>>) -> Option<Seq<FieldView>> {
    match o {
        Some(s) => Some(pre + s),
        None => None,
    }
}

/// Splits an encoded message into its fields.
pub fn read_fields(b: &[u8]) -> (r: Option<Vec<Field>>)
    ensures
        match fields(b@) {
            Some(fs) => r matches Some(v) && views(v@) == fs,
            None => r is None,
        },
{
    let mut out: Vec<Field> = Vec::new();
    let mut pos: usize = 0;
    assert(b@.subrange(0, b@.len() as int) =~= b@);
    assert(views(out@) =~= Seq::<FieldView>::empty());
    while pos < b.len()
        invariant
            pos <= b@.len(),
            fields(b@) == prepend(views(out@), fields(b@.subrange(pos as int, b@.len() as int))),
        decreases b@.len() - pos,
    {
        let ghost t = b@.subrange(pos as int, b@.len() as int);
        match read_field(b, pos) {
            None => {
                return None;
            },
            Some((f, n)) => {
                let ghost fv = f@;
                let ghost old_out = views(out@);
                assert(t.subrange(n as int, t.len() as int) =~= b@.subrange(
                    (pos + n) as int,
                    b@.len() as int,
                ));
                out.push(f);
                pos = pos + n;
                assert(views(out@) =~= old_out + seq![fv]);
                assert(fields(t) == prepend(seq![fv], fields(b@.subrange(pos as int, b@.len() as int))));
                proof {
                    match fields(b@.subrange(pos as int, b@.len() as int)) {
                        Some(s) => {
                            assert(old_out + (seq![fv] + s) =~= views(out@) + s);
                        },
                        None => {},
                    }
                }
            },
        }
    }
    assert(fields(b@.subrange(pos as int, b@.len() as int)) == Some(Seq::<FieldView>::empty()));
    assert(views(out@) + Seq::<FieldView>::empty() =~= views(out@));
    Some(out)
}

/// The wire type of a value.
pub open spec fn kind_of(v: WireVal) -> u8 {
    match v {
        WireVal::Varint(_) => 0,
        WireVal::Fixed64 => 1,
        WireVal::Bytes(_) => 2,
        WireVal::Fixed32(_) => 5,
    }
}

/// Every field numbered `num` has wire type `kind`.
pub open spec fn all_kind(fs: Seq<FieldView>, num: u64, kind: u8) -> bool {
    forall|i: int| 0 <= i < fs.len() && fs[i].num == num ==> kind_of(fs[i].value) == kind
}

/// The last varint that a field numbered `num` holds.
pub open spec fn last_varint(fs: Seq<FieldView>, num: u64) -> Option<u64>
    decreases fs.len(),
{
    if fs.len() == 0 {
        None
    } else if fs.last().num == num && fs.last().value is Varint {
        Some(fs.last().value->Varint_0)
    } else {
        last_varint(fs.drop_last(), num)
    }
}

/// The last four-byte value that a field numbered `num` holds.
pub open spec fn last_fixed32(fs: Seq<FieldView>, num: u64) -> Option<u32>
    decreases fs.len(),
{
    if fs.len() == 0 {
        None
    } else if fs.last().num == num && fs.last().value is Fixed32 {
        Some(fs.last().value->Fixed32_0)
    } else {
        last_fixed32(fs.drop_last(), num)
    }
}

/// The last byte string that a field numbered `num` holds.
pub open spec fn last_bytes(fs: Seq<FieldView>, num: u64) -> Option<Seq<u8>>
    decreases fs.len(),
{
    if fs.len() == 0 {
        None
    } else if fs.last().num == num && fs.last().value is Bytes {
        Some(fs.last().value->Bytes_0)
    } else {
        last_bytes(fs.drop_last(), num)
    }
}

/// The member that holds after the fields `fs` of a group of length-delimited fields, with
/// its number and bytes. Fields numbered `lo` to `hi` carry embedded messages: a repeat of
/// the member that already holds appends its bytes (the two parts of the message merge),
/// another one replaces it. A field numbered `raw` carries plain bytes and always replaces.
/// A single embedded message field is the group with `lo == hi` and no `raw` (0).
pub open spec fn member(fs: Seq<FieldView>, lo: u64, hi: u64, raw: u64) -> Option<(u64, Seq<u8>)>
    decreases fs.len(),
{
    if fs.len() == 0 {
        None
    } else {
        let prev = member(fs.drop_last(), lo, hi, raw);
        let f = fs.last();
        match f.value {
            WireVal::Bytes(p) => {
                if lo <= f.num <= hi {
                    if prev is Some && prev->Some_0.0 == f.num {
                        Some((f.num, prev->Some_0.1 + p))
                    } else {
                        Some((f.num, p))
                    }
                } else if f.num == raw {
                    Some((raw, p))
                } else {
                    prev
                }
            },
            _ => prev,
        }
    }
}

proof fn lemma_views_prefix(fs: Seq<Field>, i: int)
    requires
        0 <= i < fs.len(),
    ensures
        views(fs).subrange(0, i + 1).drop_last() == views(fs).subrange(0, i),
        views(fs).subrange(0, i + 1).last() == fs[i]@,
        views(fs).subrange(0, i + 1).len() == i + 1,
{
    assert(views(fs).subrange(0, i + 1).drop_last() =~= views(fs).subrange(0, i));
}

/// Whether every field numbered `num` has wire type `kind`.
pub fn check_kind(fs: &Vec<Field>, num: u64, kind: u8) -> (r: bool)
    ensures
        r == all_kind(views(fs@), num, kind),
{
    let mut i: usize = 0;
    while i < fs.len()
        invariant
            i <= fs@.len(),
            forall|j: int| 0 <= j < i && fs@[j].num == num ==> kind_of(fs@[j]@.value) == kind,
        decreases fs@.len() - i,
    {
        let f = &fs[i];
        if f.num == num {
            let k: u8 = match &f.value {
                WireValue::Varint(_) => 0,
                WireValue::Fixed64 => 1,
                WireValue::Bytes(_) => 2,
                WireValue::Fixed32(_) => 5,
            };
            if k != kind {
                assert(views(fs@)[i as int] == fs@[i as int]@);
                return false;
            }
        }
        i = i + 1;
    }
    assert forall|j: int| 0 <= j < views(fs@).len() && views(fs@)[j].num == num implies kind_of(
        views(fs@)[j].value,
    ) == kind by {
        assert(views(fs@)[j] == fs@[j]@);
    }
    true
}

/// The last varint that a field numbered `num` holds.
pub fn find_varint(fs: &Vec<Field>, num: u64) -> (r: Option<u64>)
    ensures
        r == last_varint(views(fs@), num),
{
    let mut acc: Option<u64> = None;
    let mut i: usize = 0;
    assert(views(fs@).subrange(0, 0).len() == 0);
    while i < fs.len()
        invariant
            i <= fs@.len(),
            acc == last_varint(views(fs@).subrange(0, i as int), num),
        decreases fs@.len() - i,
    {
        proof {
            lemma_views_prefix(fs@, i as int);
        }
        let f = &fs[i];
        if f.num == num {
            if let WireValue::Varint(v) = &f.value {
                acc = Some(*v);
            }
        }
        i = i + 1;
    }
    assert(views(fs@).subrange(0, fs@.len() as int) =~= views(fs@));
    acc
}

/// The last four-byte value that a field numbered `num` holds.
pub fn find_fixed32(fs: &Vec<Field>, num: u64) -> (r: Option<u32>)
    ensures
        r == last_fixed32(views(fs@), num),
{
    let mut acc: Option<u32> = None;
    let mut i: usize = 0;
    assert(views(fs@).subrange(0, 0).len() == 0);
    while i < fs.len()
        invariant
            i <= fs@.len(),
            acc == last_fixed32(views(fs@).subrange(0, i as int), num),
        decreases fs@.len() - i,
    {
        proof {
            lemma_views_prefix(fs@, i as int);
        }
        let f = &fs[i];
        if f.num == num {
            if let WireValue::Fixed32(v) = &f.value {
                acc = Some(*v);
            }
        }
        i = i + 1;
    }
    assert(views(fs@).subrange(0, fs@.len() as int) =~= views(fs@));
    acc
}

/// Appends the bytes of `p` to `acc`.
pub fn append_bytes(acc: &mut Vec<u8>, p: &Vec<u8>)
    ensures
        final(acc)@ == old(acc)@ + p@,
{
    let mut i: usize = 0;
    while i < p.len()
        invariant
            i <= p@.len(),
            acc@ == old(acc)@ + p@.subrange(0, i as int),
        decreases p@.len() - i,
    {
        acc.push(p[i]);
        i = i + 1;
        assert(acc@ =~= old(acc)@ + p@.subrange(0, i as int));
    }
    assert(p@.subrange(0, p@.len() as int) =~= p@);
}

/// The last byte string that a field numbered `num` holds.
pub fn find_bytes(fs: &Vec<Field>, num: u64) -> (r: Option<Vec<u8>>)
    ensures
        match last_bytes(views(fs@), num) {
            Some(b) => r matches Some(v) && v@ == b,
            None => r is None,
        },
{
    let mut at: Option<usize> = None;
    let mut i: usize = 0;
    assert(views(fs@).subrange(0, 0).len() == 0);
    while i < fs.len()
        invariant
            i <= fs@.len(),
            match last_bytes(views(fs@).subrange(0, i as int), num) {
                Some(b) => at matches Some(j) && j < i && fs@[j as int].value@ == WireVal::Bytes(b),
                None => at is None,
            },
        decreases fs@.len() - i,
    {
        proof {
            lemma_views_prefix(fs@, i as int);
        }
        let f = &fs[i];
        if f.num == num {
            if let WireValue::Bytes(_) = &f.value {
                at = Some(i);
            }
        }
        i = i + 1;
    }
    assert(views(fs@).subrange(0, fs@.len() as int) =~= views(fs@));
    match at {
        Some(j) => match &fs[j].value {
            WireValue::Bytes(v) => {
                assert(fs@[j as int].value@ == WireVal::Bytes(v@));
                let mut out: Vec<u8> = Vec::new();
                append_bytes(&mut out, v);
                assert(out@ =~= v@);
                Some(out)
            },
            _ => None,
        },
        None => None,
    }
}

/// The member of a group of length-delimited fields that holds after `fs`, as `member` says.
pub fn find_member(fs: &Vec<Field>, lo: u64, hi: u64, raw: u64) -> (r: Option<(u64, Vec<u8>)>)
    ensures
        match member(views(fs@), lo, hi, raw) {
            Some((k, b)) => r matches Some((j, v)) && j == k && v@ == b,
            None => r is None,
        },
{
    let mut acc: Option<(u64, Vec<u8>)> = None;
    let mut i: usize = 0;
    assert(views(fs@).subrange(0, 0).len() == 0);
    while i < fs.len()
        invariant
            i <= fs@.len(),
            match member(views(fs@).subrange(0, i as int), lo, hi, raw) {
                Some((k, b)) => acc matches Some((j, v)) && j == k && v@ == b,
                None => acc is None,
            },
        decreases fs@.len() - i,
    {
        proof {
            lemma_views_prefix(fs@, i as int);
        }
        let f = &fs[i];
        if let WireValue::Bytes(p) = &f.value {
            if lo <= f.num && f.num <= hi {
                let merge = match &acc {
                    Some((k, _)) => *k == f.num,
                    None => false,
                };
                if merge {
                    let (k, mut q) = acc.unwrap();
                    append_bytes(&mut q, p);
                    acc = Some((k, q));
                } else {
                    let mut q: Vec<u8> = Vec::new();
                    append_bytes(&mut q, p);
                    assert(q@ =~= p@);
                    acc = Some((f.num, q));
                }
            } else if f.num == raw {
                let mut q: Vec<u8> = Vec::new();
                append_bytes(&mut q, p);
                assert(q@ =~= p@);
                acc = Some((raw, q));
            }
        }
        i = i + 1;
    }
    assert(views(fs@).subrange(0, fs@.len() as int) =~= views(fs@));
    acc
}

} // verus!

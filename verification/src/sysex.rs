use vstd::prelude::*;

use crate::error::SysexParseError;

verus! {

pub const START_BYTE: u8 = 0xf0;
pub const END_BYTE: u8 = 0xf7;

/// The two 7-bit bytes (high part first) that carry the low 14 bits of `v`.
pub open spec fn packed_u14(v: u16) -> Seq<u8> {
    seq![((v / 128) % 128) as u8, (v % 128) as u8]
}

/// The value carried by two 7-bit bytes, high part first; the top bit of each
/// byte is ignored.
pub open spec fn unpacked_u14(high: u8, low: u8) -> u16 {
    ((high % 128) * 128 + low % 128) as u16
}

/// Splits the low 14 bits of `val` into two 7-bit bytes, high part first.
pub fn pack_u14(val: u16) -> (res: [u8; 2])
    ensures
        res@ == packed_u14(val),
{
    let high = ((val >> 7) & 0x7F) as u8;
    let low = (val & 0x7F) as u8;
    assert(((val >> 7) & 0x7F) == (val / 128) % 128) by (bit_vector);
    assert((val & 0x7F) == val % 128) by (bit_vector);
    let res = [high, low];
    assert(res@ =~= packed_u14(val));
    res
}

/// Joins two 7-bit bytes (high part first) into a 14-bit value.
pub fn unpack_u14(bytes: [u8; 2]) -> (res: u16)
    ensures
        res == unpacked_u14(bytes@[0], bytes@[1]),
        res < 16384,
{
    let b0 = bytes[0];
    let b1 = bytes[1];
    assert((b0 & 0x7F) == b0 % 128) by (bit_vector);
    assert((b1 & 0x7F) == b1 % 128) by (bit_vector);
    let high = (b0 & 0x7F) as u16;
    let low = (b1 & 0x7F) as u16;
    assert(((high << 7) | low) == high * 128 + low) by (bit_vector)
        requires
            high < 128u16,
            low < 128u16,
    ;
    (high << 7) | low
}

/// Unpacking a packed value gives back its low 14 bits.
pub proof fn lemma_unpack_pack_u14(v: u16)
    ensures
        unpacked_u14(packed_u14(v)[0], packed_u14(v)[1]) == v % 16384,
{
    assert(((v / 128) % 128) * 128 + v % 128 == v % 16384) by (nonlinear_arith);
}

/// Packing an unpacked pair gives back the pair with the top bits cleared.
pub proof fn lemma_pack_unpack_u14(high: u8, low: u8)
    ensures
        packed_u14(unpacked_u14(high, low)) == seq![high % 128, low % 128],
{
    let v = unpacked_u14(high, low);
    assert(v == (high % 128) * 128 + low % 128);
    assert((((high % 128) * 128 + low % 128) / 128) % 128 == high % 128) by (nonlinear_arith);
    assert(((high % 128) * 128 + low % 128) % 128 == low % 128) by (nonlinear_arith);
    assert(packed_u14(v) =~= seq![high % 128, low % 128]);
}

// ---------------------------------------------------------------------------
// 7-bit packing: every group of up to seven bytes is preceded by a byte that
// holds their top bits (bit i for the i-th byte of the group).
// ---------------------------------------------------------------------------

/// The header byte of a group: bit i is the top bit of the group's i-th byte.
pub open spec fn group_header(group: Seq<u8>) -> nat
    decreases group.len(),
{
    if group.len() == 0 {
        0
    } else {
        (group[0] / 128) as nat + 2 * group_header(group.drop_first())
    }
}

/// The group's bytes with the top bit cleared.
pub open spec fn low_bits(group: Seq<u8>) -> Seq<u8>
    decreases group.len(),
{
    if group.len() == 0 {
        seq![]
    } else {
        seq![group[0] % 128] + low_bits(group.drop_first())
    }
}

/// The 7-bit packed form of `data`.
pub open spec fn packed_u7(data: Seq<u8>) -> Seq<u8>
    decreases data.len(),
{
    if data.len() == 0 {
        seq![]
    } else {
        let n: int = if data.len() < 7 { data.len() as int } else { 7 };
        seq![group_header(data.take(n)) as u8] + low_bits(data.take(n)) + packed_u7(data.skip(n))
    }
}

/// Restores the bytes of one group from its header and its 7-bit bytes.
pub open spec fn group_bytes(header: nat, body: Seq<u8>) -> Seq<u8>
    decreases body.len(),
{
    if body.len() == 0 {
        seq![]
    } else {
        seq![(body[0] % 128 + 128 * (header % 2)) as u8] + group_bytes(header / 2, body.drop_first())
    }
}

/// The bytes carried by 7-bit packed `data`: groups of up to eight bytes, the
/// first of each group being the header.
pub open spec fn unpacked_u7(data: Seq<u8>) -> Seq<u8>
    decreases data.len(),
{
    if data.len() == 0 {
        seq![]
    } else {
        let n: int = if data.len() < 8 { data.len() as int } else { 8 };
        group_bytes(data[0] as nat, data.subrange(1, n)) + unpacked_u7(data.skip(n))
    }
}

proof fn lemma_group_header_bound(group: Seq<u8>)
    ensures
        group_header(group) < pow2_nat(group.len()),
    decreases group.len(),
{
    if group.len() > 0 {
        lemma_group_header_bound(group.drop_first());
    }
}

/// 2 to the power `n`.
pub open spec fn pow2_nat(n: nat) -> nat
    decreases n,
{
    if n == 0 {
        1
    } else {
        2 * pow2_nat((n - 1) as nat)
    }
}

proof fn lemma_low_bits_len(group: Seq<u8>)
    ensures
        low_bits(group).len() == group.len(),
    decreases group.len(),
{
    if group.len() > 0 {
        lemma_low_bits_len(group.drop_first());
    }
}

proof fn lemma_group_round_trip(group: Seq<u8>)
    ensures
        group_bytes(group_header(group), low_bits(group)) == group,
    decreases group.len(),
{
    if group.len() > 0 {
        let rest = group.drop_first();
        lemma_group_round_trip(rest);
        lemma_low_bits_len(group);
        let h = group_header(group);
        assert(h % 2 == group[0] / 128);
        assert(h / 2 == group_header(rest));
        assert(low_bits(group).drop_first() =~= low_bits(rest));
        assert(group_bytes(h, low_bits(group)) =~= group);
    }
}

/// Unpacking the packed form of any byte sequence gives the sequence back.
pub proof fn lemma_unpack_pack_u7(data: Seq<u8>)
    ensures
        unpacked_u7(packed_u7(data)) == data,
    decreases data.len(),
{
    if data.len() > 0 {
        let n: int = if data.len() < 7 { data.len() as int } else { 7 };
        let group = data.take(n);
        let rest = data.skip(n);
        lemma_unpack_pack_u7(rest);
        lemma_low_bits_len(group);
        lemma_group_header_bound(group);
        assert(pow2_nat(7) == 128) by {
            reveal_with_fuel(pow2_nat, 8);
        }
        assert(group.len() <= 7);
        lemma_pow2_mono(group.len(), 7);
        let p = packed_u7(data);
        let head = seq![group_header(group) as u8] + low_bits(group);
        assert(p == head + packed_u7(rest));
        assert(head.len() == n + 1);
        let m: int = if p.len() < 8 { p.len() as int } else { 8 };
        assert(m == n + 1);
        assert(p.subrange(1, m) =~= low_bits(group));
        assert(p.skip(m) =~= packed_u7(rest));
        assert(p[0] as nat == group_header(group));
        lemma_group_round_trip(group);
        assert(data =~= group + rest);
    }
}

proof fn lemma_pow2_mono(a: nat, b: nat)
    requires
        a <= b,
    ensures
        pow2_nat(a) <= pow2_nat(b),
    decreases b,
{
    if a < b {
        lemma_pow2_mono(a, (b - 1) as nat);
    }
}


/// Packs `data` into 7-bit bytes: every group of up to seven bytes is preceded
/// by a header byte that carries the group's top bits.
pub fn pack_u7(data: &[u8]) -> (res: Vec<u8>)
    ensures
        res@ == packed_u7(data@),
{
    let len = data.len();
    let mut out: Vec<u8> = Vec::new();
    let mut i: usize = 0;
    assert(data@.skip(0) =~= data@);
    while i < len
        invariant
            len == data@.len(),
            i <= len,
            out@ + packed_u7(data@.skip(i as int)) == packed_u7(data@),
        decreases len - i,
    {
        let n: usize = if len - i < 7 { len - i } else { 7 };
        let ghost rest = data@.skip(i as int);
        let ghost group = rest.take(n as int);
        // header, computed from the last byte of the group to the first
        let mut h: u8 = 0;
        let mut j: usize = n;
        assert(group.skip(n as int) =~= Seq::<u8>::empty());
        while j > 0
            invariant
                j <= n <= 7,
                i + n <= len,
                len == data@.len(),
                group == data@.skip(i as int).take(n as int),
                h as nat == group_header(group.skip(j as int)),
                group_header(group.skip(j as int)) < pow2_nat((n - j) as nat),
            decreases j,
        {
            j = j - 1;
            let b = data[i + j];
            assert(b >> 7 == b / 128) by (bit_vector);
            let ghost tail = group.skip(j as int);
            assert(tail.drop_first() =~= group.skip(j + 1));
            assert(tail[0] == b);
            proof {
                lemma_pow2_mono((n - j - 1) as nat, 6);
                assert(pow2_nat(6) == 64) by {
                    reveal_with_fuel(pow2_nat, 7);
                }
            }
            h = (b >> 7) + 2 * h;
        }
        assert(group.skip(0) =~= group);
        let ghost prev = out@;
        proof {
            assert(rest.len() > 0);
            assert(packed_u7(rest) == seq![group_header(group) as u8] + low_bits(group)
                + packed_u7(rest.skip(n as int)));
            assert(rest.skip(n as int) =~= data@.skip(i + n));
        }
        out.push(h);
        let mut k: usize = 0;
        while k < n
            invariant
                k <= n <= 7,
                i + n <= len,
                len == data@.len(),
                group == data@.skip(i as int).take(n as int),
                out@ + low_bits(group.skip(k as int)) == prev + seq![h] + low_bits(group),
            decreases n - k,
        {
            let b = data[i + k];
            assert(b & 0x7F == b % 128) by (bit_vector);
            let ghost tail = group.skip(k as int);
            assert(tail.drop_first() =~= group.skip(k + 1));
            assert(tail[0] == b);
            assert(low_bits(tail) == seq![b % 128] + low_bits(group.skip(k + 1)));
            let ghost before = out@;
            out.push(b & 0x7F);
            assert(out@ + low_bits(group.skip(k + 1)) =~= before + low_bits(tail));
            k = k + 1;
        }
        assert(low_bits(group.skip(n as int)) == Seq::<u8>::empty());
        assert(out@ =~= out@ + low_bits(group.skip(n as int)));
        assert((prev + seq![h] + low_bits(group)) + packed_u7(data@.skip(i + n)) =~= prev + packed_u7(rest));
        assert(group.skip(n as int) =~= Seq::<u8>::empty());
        assert(data@.skip(i as int).skip(n as int) =~= data@.skip(i + n));
        i = i + n;
    }
    assert(data@.skip(len as int) =~= Seq::<u8>::empty());
    assert(out@ =~= packed_u7(data@));
    out
}


/// Restores the bytes carried by 7-bit packed `data`.
pub fn unpack_u7(data: &[u8]) -> (res: Vec<u8>)
    ensures
        res@ == unpacked_u7(data@),
{
    let len = data.len();
    let mut out: Vec<u8> = Vec::new();
    let mut i: usize = 0;
    assert(data@.skip(0) =~= data@);
    while i < len
        invariant
            len == data@.len(),
            i <= len,
            out@ + unpacked_u7(data@.skip(i as int)) == unpacked_u7(data@),
        decreases len - i,
    {
        let m: usize = if len - i < 8 { len - i } else { 8 };
        let ghost rest = data@.skip(i as int);
        let ghost body = data@.subrange(i + 1, i + m);
        let ghost prev = out@;
        proof {
            assert(rest.len() > 0);
            assert(rest.subrange(1, m as int) =~= body);
            assert(rest.skip(m as int) =~= data@.skip(i + m));
            assert(unpacked_u7(rest) == group_bytes(data@[i as int] as nat, body)
                + unpacked_u7(data@.skip(i + m)));
        }
        let mut h: u8 = data[i];
        let mut k: usize = 1;
        assert(body.skip(0) =~= body);
        while k < m
            invariant
                1 <= k <= m <= 8,
                i + m <= len,
                len == data@.len(),
                body == data@.subrange(i + 1, i + m),
                out@ + group_bytes(h as nat, body.skip(k - 1)) == prev + group_bytes(
                    data@[i as int] as nat,
                    body,
                ),
            decreases m - k,
        {
            let b = data[i + k];
            let ghost tail = body.skip(k - 1);
            assert(tail.drop_first() =~= body.skip(k as int));
            assert(tail[0] == b);
            assert((b & 0x7F) | ((h & 1) << 7) == b % 128 + 128 * (h % 2)) by (bit_vector);
            assert(h >> 1 == h / 2) by (bit_vector);
            let ghost before = out@;
            let ghost h0 = h;
            assert(group_bytes(h0 as nat, tail) == seq![(b % 128 + 128 * (h0 % 2)) as u8]
                + group_bytes((h0 / 2) as nat, body.skip(k as int)));
            out.push((b & 0x7F) | ((h & 1) << 7));
            h = h >> 1;
            assert(out@ + group_bytes(h as nat, body.skip(k as int)) =~= before + group_bytes(
                h0 as nat,
                tail,
            ));
            k = k + 1;
        }
        assert(body.skip(m - 1) =~= Seq::<u8>::empty());
        assert(out@ =~= out@ + group_bytes(h as nat, body.skip(m - 1)));
        assert((prev + group_bytes(data@[i as int] as nat, body)) + unpacked_u7(data@.skip(i + m))
            =~= prev + unpacked_u7(rest));
        i = i + m;
    }
    assert(data@.skip(len as int) =~= Seq::<u8>::empty());
    assert(out@ =~= unpacked_u7(data@));
    out
}


/// The bytes of a framed message: start byte, payload, end byte.
pub open spec fn framed(payload: Seq<u8>) -> Seq<u8> {
    seq![START_BYTE] + payload + seq![END_BYTE]
}

/// What a byte sequence holds as a sysex frame: its payload, or why it is
/// not a frame.
pub open spec fn parse_frame(data: Seq<u8>) -> Result<Seq<u8>, SysexParseError> {
    if data.len() == 0 {
        Err(SysexParseError::Empty)
    } else if data[0] != START_BYTE {
        Err(SysexParseError::InvalidStart(data[0]))
    } else if data.len() == 1 {
        Err(SysexParseError::MissingEnding)
    } else if data.last() != END_BYTE {
        Err(SysexParseError::InvalidEnding(data.last()))
    } else {
        Ok(data.subrange(1, data.len() - 1))
    }
}

/// A system-exclusive message: the payload between the start and end bytes.
/// Only single-byte manufacturer ids are supported.
#[derive(Debug, Clone)]
pub struct Sysex {
    payload: Vec<u8>,
}

impl View for Sysex {
    type V = Seq<u8>;

    closed spec fn view(&self) -> Seq<u8> {
        self.payload@
    }
}

/// Appends the bytes of `src` to `out`.
pub fn extend_bytes(out: &mut Vec<u8>, src: &[u8])
    ensures
        final(out)@ == old(out)@ + src@,
{
    let mut i: usize = 0;
    while i < src.len()
        invariant
            i <= src@.len(),
            out@ == old(out)@ + src@.take(i as int),
        decreases src@.len() - i,
    {
        out.push(src[i]);
        assert(src@.take(i + 1) =~= src@.take(i as int).push(src@[i as int]));
        i = i + 1;
    }
    assert(src@.take(src@.len() as int) =~= src@);
}

/// The lowercase hexadecimal digit with value `d`, for `0 <= d < 16`.
pub open spec fn hex_digit(d: int) -> Seq<char> {
    if d == 0 { "0"@ } else if d == 1 { "1"@ } else if d == 2 { "2"@ } else if d == 3 { "3"@ }
    else if d == 4 { "4"@ } else if d == 5 { "5"@ } else if d == 6 { "6"@ } else if d == 7 { "7"@ }
    else if d == 8 { "8"@ } else if d == 9 { "9"@ } else if d == 10 { "a"@ } else if d == 11 { "b"@ }
    else if d == 12 { "c"@ } else if d == 13 { "d"@ } else if d == 14 { "e"@ } else { "f"@ }
}

/// A byte as two lowercase hexadecimal digits.
pub open spec fn hex_byte(b: u8) -> Seq<char> {
    hex_digit((b / 16) as int) + hex_digit((b % 16) as int)
}

/// Bytes as two-digit hexadecimal numbers separated by ", ".
pub open spec fn hex_list(bytes: Seq<u8>) -> Seq<char>
    decreases bytes.len(),
{
    if bytes.len() == 0 {
        Seq::empty()
    } else if bytes.len() == 1 {
        hex_byte(bytes[0])
    } else {
        hex_list(bytes.drop_last()) + ", "@ + hex_byte(bytes.last())
    }
}

/// The decimal digits of `n`.
pub open spec fn decimal(n: nat) -> Seq<char>
    decreases n,
{
    if n < 10 {
        hex_digit(n as int)
    } else {
        decimal(n / 10) + hex_digit((n % 10) as int)
    }
}

/// A short description of a payload: all bytes in hexadecimal when there are
/// at most eight, else the first four and the last four around an
/// ellipsis; then the byte count.
pub open spec fn preview_text(p: Seq<u8>) -> Seq<char> {
    let n = p.len();
    if n <= 8 {
        "["@ + hex_list(p) + "], "@ + decimal(n) + " bytes"@
    } else {
        "["@ + hex_list(p.take(4)) + ", ..., "@ + hex_list(p.subrange(n - 4, n as int)) + "], "@
            + decimal(n) + " bytes"@
    }
}

fn hex_digit_str(d: u8) -> (res: &'static str)
    requires
        d < 16,
    ensures
        res@ == hex_digit(d as int),
{
    if d == 0 { "0" } else if d == 1 { "1" } else if d == 2 { "2" } else if d == 3 { "3" }
    else if d == 4 { "4" } else if d == 5 { "5" } else if d == 6 { "6" } else if d == 7 { "7" }
    else if d == 8 { "8" } else if d == 9 { "9" } else if d == 10 { "a" } else if d == 11 { "b" }
    else if d == 12 { "c" } else if d == 13 { "d" } else if d == 14 { "e" } else { "f" }
}

pub(crate) fn push_decimal(s: &mut String, n: usize)
    ensures
        final(s)@ == old(s)@ + decimal(n as nat),
    decreases n,
{
    if n < 10 {
        s.append(hex_digit_str(n as u8));
    } else {
        push_decimal(s, n / 10);
        s.append(hex_digit_str((n % 10) as u8));
        assert(final(s)@ =~= old(s)@ + decimal(n as nat));
    }
}

fn push_hex_list(s: &mut String, bytes: &[u8])
    ensures
        final(s)@ == old(s)@ + hex_list(bytes@),
{
    let mut i: usize = 0;
    while i < bytes.len()
        invariant
            i <= bytes@.len(),
            s@ == old(s)@ + hex_list(bytes@.take(i as int)),
        decreases bytes@.len() - i,
    {
        let b = bytes[i];
        if i > 0 {
            s.append(", ");
        }
        s.append(hex_digit_str(b / 16));
        s.append(hex_digit_str(b % 16));
        proof {
            let t = bytes@.take(i + 1);
            assert(t.drop_last() =~= bytes@.take(i as int));
            assert(t.last() == b);
            if i == 0 {
                assert(hex_list(t) == hex_byte(b));
                assert(hex_list(bytes@.take(0)) =~= Seq::<char>::empty());
            }
        }
        assert(s@ =~= old(s)@ + hex_list(bytes@.take(i + 1)));
        i = i + 1;
    }
    assert(bytes@.take(bytes@.len() as int) =~= bytes@);
}

impl Sysex {
    pub fn new(payload: Vec<u8>) -> (res: Self)
        ensures
            res@ == payload@,
    {
        Self { payload }
    }

    pub fn payload(&self) -> (res: &[u8])
        ensures
            res@ == self@,
    {
        self.payload.as_slice()
    }

    /// The framed bytes of the message.
    pub fn as_bytes(&self) -> (res: Vec<u8>)
        ensures
            res@ == framed(self@),
    {
        let mut data: Vec<u8> = Vec::new();
        data.push(START_BYTE);
        extend_bytes(&mut data, self.payload.as_slice());
        data.push(END_BYTE);
        assert(data@ =~= framed(self@));
        data
    }

    /// A short description of the payload, such as
    /// "[00, 01, 02, 03, ..., 05, 06, 07, 08], 9 bytes".
    pub fn preview(&self) -> (res: String)
        ensures
            res@ == preview_text(self@),
    {
        let p = self.payload.as_slice();
        let n = p.len();
        let mut s = String::new();
        s.append("[");
        if n <= 8 {
            push_hex_list(&mut s, p);
            s.append("], ");
            push_decimal(&mut s, n);
            s.append(" bytes");
        } else {
            push_hex_list(&mut s, &p[0..4]);
            s.append(", ..., ");
            push_hex_list(&mut s, &p[n - 4..n]);
            s.append("], ");
            push_decimal(&mut s, n);
            s.append(" bytes");
            assert(p@.subrange(0, 4) =~= p@.take(4));
        }
        assert(s@ =~= preview_text(self@));
        s
    }

    /// Reads a framed message; fails on a missing or wrong start or end byte.
    pub fn from_bytes(data: &[u8]) -> (res: Result<Self, SysexParseError>)
        ensures
            match res {
                Ok(s) => parse_frame(data@) == Ok::<Seq<u8>, SysexParseError>(s@),
                Err(e) => parse_frame(data@) == Err::<Seq<u8>, SysexParseError>(e),
            },
    {
        let len = data.len();
        if len == 0 {
            return Err(SysexParseError::Empty);
        }
        let first = data[0];
        if first != START_BYTE {
            return Err(SysexParseError::InvalidStart(first));
        }
        if len == 1 {
            return Err(SysexParseError::MissingEnding);
        }
        let last = data[len - 1];
        if last != END_BYTE {
            return Err(SysexParseError::InvalidEnding(last));
        }
        let mut payload: Vec<u8> = Vec::new();
        let mut i: usize = 1;
        while i < len - 1
            invariant
                1 <= i <= len - 1,
                len == data@.len(),
                payload@ == data@.subrange(1, i as int),
            decreases len - 1 - i,
        {
            payload.push(data[i]);
            assert(data@.subrange(1, i + 1) =~= data@.subrange(1, i as int).push(data@[i as int]));
            i = i + 1;
        }
        Ok(Sysex { payload })
    }
}

/// The conversion goes through [`Sysex::from_bytes`], whose contract states the
/// result. This spec impl opts out of the std contract; the conversion's own
/// `ensures` states the result.
impl<'a> vstd::std_specs::convert::TryFromSpecImpl<&'a [u8]> for Sysex {
    open spec fn obeys_try_from_spec() -> bool {
        false
    }

    open spec fn try_from_spec(data: &'a [u8]) -> Result<Self, SysexParseError> {
        Err(SysexParseError::Empty)
    }
}

impl<'a> TryFrom<&'a [u8]> for Sysex {
    type Error = SysexParseError;

    fn try_from(data: &'a [u8]) -> (res: Result<Self, SysexParseError>)
        ensures
            match res {
                Ok(s) => parse_frame(data@) == Ok::<Seq<u8>, SysexParseError>(s@),
                Err(e) => parse_frame(data@) == Err::<Seq<u8>, SysexParseError>(e),
            },
    {
        Sysex::from_bytes(data)
    }
}

/// Reading the framed bytes of a payload gives the payload back.
pub proof fn lemma_parse_framed(payload: Seq<u8>)
    ensures
        parse_frame(framed(payload)) == Ok::<Seq<u8>, SysexParseError>(payload),
{
    let f = framed(payload);
    assert(f.subrange(1, f.len() - 1) =~= payload);
}

/// A byte sequence that reads as a frame is exactly the framing of its payload.
pub proof fn lemma_framed_parse(data: Seq<u8>)
    requires
        parse_frame(data) is Ok,
    ensures
        framed(parse_frame(data)->Ok_0) == data,
{
    assert(framed(data.subrange(1, data.len() - 1)) =~= data);
}

} // verus!

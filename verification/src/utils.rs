//! Primitive codecs: byte-pair and byte-quad recombination, boolean bytes,
//! and UTF-16 little-endian string encoding.

use vstd::prelude::*;

verus! {

/// The 16-bit value two little-endian bytes spell.
pub open spec fn spec_as_u16(a: u8, b: u8) -> u16 {
    ((b as u16) << 8) | (a as u16)
}

/// The 32-bit value four little-endian bytes spell.
pub open spec fn spec_as_u32(a: u8, b: u8, c: u8, d: u8) -> u32 {
    ((d as u32) << 24) | ((c as u32) << 16) | ((b as u32) << 8) | (a as u32)
}

/// Interprets a byte as a boolean: `0x00` is `false`, `0x01` is `true`, and
/// every other value is rejected unchanged.
pub fn as_bool(v: u8) -> (r: Result<bool, u8>)
    ensures
        v == 0x00 ==> r == Result::<bool, u8>::Ok(false),
        v == 0x01 ==> r == Result::<bool, u8>::Ok(true),
        v != 0x00 && v != 0x01 ==> r == Result::<bool, u8>::Err(v),
{
    match v {
        0x00 => Ok(false),
        0x01 => Ok(true),
        _ => Err(v),
    }
}

/// Recombines two bytes, least significant first, into a 16-bit value.
pub fn as_u16(a: u8, b: u8) -> (r: u16)
    ensures
        r == spec_as_u16(a, b),
        r == a + b * 0x100,
{
    let r: u16 = (u16::from(b) << 8) | u16::from(a);
    proof {
        let av = a as u16;
        let bv = b as u16;
        assert(av < 0x100 && bv < 0x100 ==> ((bv << 8) | av) == av + bv * 0x100) by (bit_vector);
    }
    r
}

/// Recombines four bytes, least significant first, into a 32-bit value.
pub fn as_u32(a: u8, b: u8, c: u8, d: u8) -> (r: u32)
    ensures
        r == spec_as_u32(a, b, c, d),
        r == a + b * 0x100 + c * 0x1_0000 + d * 0x100_0000,
{
    let r: u32 = (u32::from(d) << 24) | (u32::from(c) << 16) | (u32::from(b) << 8) | u32::from(a);
    proof {
        let av = a as u32;
        let bv = b as u32;
        let cv = c as u32;
        let dv = d as u32;
        assert(av < 0x100 && bv < 0x100 && cv < 0x100 && dv < 0x100 ==> ((dv << 24) | (cv << 16)
            | (bv << 8) | av) == av + bv * 0x100 + cv * 0x1_0000 + dv * 0x100_0000)
            by (bit_vector);
    }
    r
}

/// The UTF-16 code units of one character: scalar values below 0x10000 are
/// one unit, the rest become a surrogate pair.
pub open spec fn utf16_units_of_char(c: char) -> Seq<u16> {
    let v = c as u32;
    if v < 0x10000 {
        seq![v as u16]
    } else {
        let x = (v - 0x10000) as u32;
        seq![(0xd800 + (x >> 10)) as u16, (0xdc00 + (x & 0x3ff)) as u16]
    }
}

/// The UTF-16 code units of a character sequence, in order.
pub open spec fn utf16_units(s: Seq<char>) -> Seq<u16>
    decreases s.len(),
{
    if s.len() == 0 {
        Seq::empty()
    } else {
        utf16_units_of_char(s[0]) + utf16_units(s.drop_first())
    }
}

/// Appending a character appends its code units.
proof fn lemma_utf16_units_push(s: Seq<char>, c: char)
    ensures
        utf16_units(s.push(c)) == utf16_units(s) + utf16_units_of_char(c),
    decreases s.len(),
{
    if s.len() == 0 {
        assert(s.push(c)[0] == c);
        assert(s.push(c).drop_first() =~= Seq::<char>::empty());
        assert(utf16_units(s.push(c)) == utf16_units_of_char(c) + utf16_units(
            Seq::<char>::empty(),
        ));
        assert(utf16_units(Seq::<char>::empty()) == Seq::<u16>::empty());
        assert(utf16_units_of_char(c) + Seq::<u16>::empty() =~= utf16_units_of_char(c));
        assert(utf16_units(s) + utf16_units_of_char(c) =~= utf16_units_of_char(c));
    } else {
        assert(s.push(c).drop_first() =~= s.drop_first().push(c));
        lemma_utf16_units_push(s.drop_first(), c);
        assert(utf16_units(s.push(c)) =~= utf16_units(s) + utf16_units_of_char(c));
    }
}

/// The UTF-16 code units of a string, in order.
pub fn utf16_code_units(s: &str) -> (r: Vec<u16>)
    ensures
        r@ == utf16_units(s@),
{
    let n = s.unicode_len();
    let mut out: Vec<u16> = Vec::new();
    let mut i: usize = 0;
    proof {
        assert(s@.subrange(0, 0) =~= Seq::<char>::empty());
    }
    while i < n
        invariant
            n == s@.len(),
            i <= n,
            out@ == utf16_units(s@.subrange(0, i as int)),
        decreases n - i,
    {
        let c = s.get_char(i);
        let v = c as u32;
        proof {
            lemma_utf16_units_push(s@.subrange(0, i as int), c);
            assert(s@.subrange(0, i + 1) =~= s@.subrange(0, i as int).push(s@[i as int]));
        }
        if v < 0x10000 {
            out.push(v as u16);
        } else {
            let x = v - 0x10000;
            proof {
                assert(x >> 10 <= 0x3fffff) by (bit_vector);
                assert(x & 0x3ff <= 0x3ff) by (bit_vector);
            }
            out.push((0xd800 + (x >> 10)) as u16);
            out.push((0xdc00 + (x & 0x3ff)) as u16);
        }
        i = i + 1;
    }
    proof {
        assert(s@.subrange(0, n as int) =~= s@);
    }
    out
}

/// Encodes a string as UTF-16, little-endian, into the front of the given
/// buffer; the bytes past the encoding keep their old values. The buffer must
/// have room for two bytes per code unit.
pub fn encode_utf16_to_buffer(s: &str, buf: &mut Vec<u8>)
    requires
        2 * utf16_units(s@).len() <= old(buf)@.len(),
    ensures
        final(buf)@.len() == old(buf)@.len(),
        forall|j: int|
            0 <= j < utf16_units(s@).len() ==> final(buf)@[2 * j] == utf16_units(s@)[j] as u8
                && final(buf)@[2 * j + 1] == (utf16_units(s@)[j] >> 8) as u8,
        forall|k: int|
            2 * utf16_units(s@).len() <= k < old(buf)@.len() ==> final(buf)@[k] == old(buf)@[k],
{
    let units = utf16_code_units(s);
    let buf_len = buf.len();
    let mut i: usize = 0;
    while i < units.len()
        invariant
            units@ == utf16_units(s@),
            2 * units@.len() <= buf_len,
            buf@.len() == buf_len,
            buf@.len() == old(buf)@.len(),
            i <= units@.len(),
            forall|j: int|
                0 <= j < i ==> buf@[2 * j] == units@[j] as u8 && buf@[2 * j + 1] == (units@[j]
                    >> 8) as u8,
            forall|k: int| 2 * i <= k < old(buf)@.len() ==> buf@[k] == old(buf)@[k],
        decreases units@.len() - i,
    {
        let unit = units[i];
        buf[2 * i] = unit as u8;
        buf[2 * i + 1] = (unit >> 8) as u8;
        i = i + 1;
    }
}

/// What `String::from_utf16_lossy` returns for the given code units.
pub uninterp spec fn decoded_utf16(units: Seq<u16>) -> Seq<char>;

/// Decodes UTF-16 code units into a string, replacing unpaired surrogates.
/// Relies on `String::from_utf16_lossy`: the result is a function of the code
/// units alone, and decoding a UTF-16 encoding gives back what was encoded.
#[verifier::external_body]
pub(crate) fn decode_utf16_lossy(units: &[u16]) -> (r: String)
    ensures
        r@ == decoded_utf16(units@),
        forall|s: Seq<char>| (#[trigger] utf16_units(s)) == units@ ==> r@ == s,
{
    String::from_utf16_lossy(units)
}

} // verus!

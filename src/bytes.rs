use vstd::prelude::*;
use vstd::string::StringExecFns;

verus! {

/// `v` written little-endian in exactly `k` bytes (digits above `k` dropped).
pub open spec fn le_bytes(v: nat, k: nat) -> Seq<u8>
    decreases k,
{
    if k == 0 {
        Seq::empty()
    } else {
        seq![(v % 256) as u8] + le_bytes(v / 256, (k - 1) as nat)
    }
}

/// The number that little-endian bytes `s` stand for.
pub open spec fn le_value(s: Seq<u8>) -> nat
    decreases s.len(),
{
    if s.len() == 0 {
        0
    } else {
        s[0] as nat + 256 * le_value(s.drop_first())
    }
}

/// How many bytes `v` needs, at least one.
pub open spec fn byte_len(v: nat) -> nat
    decreases v,
{
    if v < 256 {
        1
    } else {
        1 + byte_len(v / 256)
    }
}

/// The compact (variable-length) encoding of `n`: the two low bits of the first
/// byte select a one-, two- or four-byte form holding `4n + mode`, or a form
/// with a length byte followed by the bytes of `n`.
pub open spec fn compact_of(n: u64) -> Seq<u8> {
    if n < 0x40 {
        seq![(4 * n) as u8]
    } else if n < 0x4000 {
        le_bytes((4 * n + 1) as nat, 2)
    } else if n < 0x4000_0000 {
        le_bytes((4 * n + 2) as nat, 4)
    } else {
        seq![(3 + 4 * (byte_len(n as nat) - 4)) as u8] + le_bytes(n as nat, byte_len(n as nat))
    }
}

/// Lower-case hexadecimal digit of `d < 16`.
pub open spec fn hex_digit(d: int) -> char {
    seq!['0', '1', '2', '3', '4', '5', '6', '7', '8', '9', 'a', 'b', 'c', 'd', 'e', 'f'][d]
}

/// Two lower-case hex digits per byte, high nibble first.
pub open spec fn hex_text(b: Seq<u8>) -> Seq<char>
    decreases b.len(),
{
    if b.len() == 0 {
        Seq::empty()
    } else {
        seq![hex_digit((b[0] / 16) as int), hex_digit((b[0] % 16) as int)] + hex_text(b.drop_first())
    }
}

/// `b` as hex text with a `0x` prefix.
pub open spec fn prefixed_hex(b: Seq<u8>) -> Seq<char> {
    seq!['0', 'x'] + hex_text(b)
}

/// Value of the ASCII hex digit `c`, either case.
pub open spec fn hex_value(c: u8) -> Option<nat> {
    if 0x30 <= c <= 0x39 {
        Some((c - 0x30) as nat)
    } else if 0x61 <= c <= 0x66 {
        Some((c - 0x61 + 10) as nat)
    } else if 0x41 <= c <= 0x46 {
        Some((c - 0x41 + 10) as nat)
    } else {
        None
    }
}

/// The bytes that ASCII hex text `s` spells, or `None` when its length is odd or
/// it holds a character that is no hex digit.
pub open spec fn unhex(s: Seq<u8>) -> Option<Seq<u8>>
    decreases s.len(),
{
    if s.len() == 0 {
        Some(Seq::empty())
    } else if s.len() == 1 {
        None
    } else {
        match (hex_value(s[0]), hex_value(s[1]), unhex(s.skip(2))) {
            (Some(hi), Some(lo), Some(rest)) => Some(seq![(16 * hi + lo) as u8] + rest),
            _ => None,
        }
    }
}

/// Relies on parity_codec's `Encode` for `Compact<u64>`, which writes the form
/// that `compact_of` describes.
#[verifier::external_body]
pub(crate) fn encode_compact(n: u64) -> (r: Vec<u8>)
    ensures
        r@ == compact_of(n),
{
    parity_codec::Encode::encode(&parity_codec::Compact(n))
}

/// Relies on parity_codec's `Decode` for `u64`: it reads eight little-endian
/// bytes, and gives `None` when fewer are left.
#[verifier::external_body]
pub(crate) fn decode_u64(b: &[u8]) -> (r: Option<u64>)
    ensures
        b@.len() >= 8 ==> r == Some(le_value(b@.take(8)) as u64),
        b@.len() < 8 ==> r is None,
{
    let mut input: &[u8] = b;
    <u64 as parity_codec::Decode>::decode(&mut input)
}

/// Relies on hex::encode, which writes two lower-case digits per byte.
#[verifier::external_body]
fn to_hex(b: &[u8]) -> (r: String)
    ensures
        r@ == hex_text(b@),
{
    hex::encode(b)
}

/// `b` as hex text with a `0x` prefix.
pub fn to_prefixed_hex(b: &[u8]) -> (r: String)
    ensures
        r@ == prefixed_hex(b@),
{
    proof {
        reveal_strlit("0x");
    }
    let mut r = <String as StringExecFns>::from_str("0x");
    let digits = to_hex(b);
    r.append(digits.as_str());
    r
}

/// Relies on hex::decode: the bytes that the text spells, or an error on an odd
/// length or a character that is no hex digit.
#[verifier::external_body]
pub(crate) fn from_hex(s: &[u8]) -> (r: Option<Vec<u8>>)
    ensures
        match r {
            Some(v) => unhex(s@) == Some(v@),
            None => unhex(s@) is None,
        },
{
    hex::decode(s).ok()
}

/// Appends the low `k` bytes of `v`, little-endian.
pub fn push_le(out: &mut Vec<u8>, v: u128, k: usize)
    ensures
        final(out)@ == old(out)@ + le_bytes(v as nat, k as nat),
{
    let mut x: u128 = v;
    let mut i: usize = 0;
    while i < k
        invariant
            i <= k,
            old(out)@ + le_bytes(v as nat, k as nat) == out@ + le_bytes(x as nat, (k - i) as nat),
        decreases k - i,
    {
        let ghost before = out@;
        out.push((x % 256) as u8);
        proof {
            assert(le_bytes(x as nat, (k - i) as nat) == seq![(x % 256) as u8] + le_bytes(
                (x / 256) as nat,
                (k - i - 1) as nat,
            ));
            assert(before + le_bytes(x as nat, (k - i) as nat) == out@ + le_bytes(
                (x / 256) as nat,
                (k - i - 1) as nat,
            ));
        }
        x = x / 256;
        i = i + 1;
    }
    assert(le_bytes(x as nat, 0) == Seq::<u8>::empty());
    assert(out@ + Seq::<u8>::empty() == out@);
}

/// Appends all of `b`.
pub fn push_all(out: &mut Vec<u8>, b: &[u8])
    ensures
        final(out)@ == old(out)@ + b@,
{
    let mut i: usize = 0;
    while i < b.len()
        invariant
            i <= b@.len(),
            out@ == old(out)@ + b@.take(i as int),
        decreases b@.len() - i,
    {
        out.push(b[i]);
        assert(b@.take(i as int + 1) == b@.take(i as int).push(b@[i as int]));
        i = i + 1;
    }
    assert(b@.take(b@.len() as int) == b@);
}

} // verus!

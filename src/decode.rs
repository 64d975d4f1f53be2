use vstd::prelude::*;
use vstd::arithmetic::div_mod::{lemma_breakdown, lemma_mod_mod, lemma_small_mod};
use crate::bytes::{byte_len, compact_of, le_bytes, le_value};
use crate::extrinsic::{
    call_wf, encode_bytes, encode_call, encode_extrinsic, extrinsic_body, extrinsic_wf, CallModel,
    version_tag, ExtrinsicModel, ProtocolVersion, ADDRESS_ID, FORMAT_VERSION, CONTRACT_MODULE, CREATE_CALL, IMMORTAL_ERA, PUT_CODE_CALL,
    SIGNED_VERSION, SUDO_CALL, SUDO_MODULE,
};

verus! {

/// `256` to the power `k`.
pub open spec fn pow256(k: nat) -> nat
    decreases k,
{
    if k == 0 {
        1
    } else {
        256 * pow256((k - 1) as nat)
    }
}

/// Reads a compact integer from the front of `s`: its value and how many bytes
/// it took.
pub open spec fn decode_compact(s: Seq<u8>) -> Option<(u64, nat)> {
    if s.len() == 0 {
        None
    } else if s[0] % 4 == 0 {
        Some(((s[0] / 4) as u64, 1))
    } else if s[0] % 4 == 1 {
        if s.len() >= 2 {
            Some(((le_value(s.take(2)) / 4) as u64, 2))
        } else {
            None
        }
    } else if s[0] % 4 == 2 {
        if s.len() >= 4 {
            Some(((le_value(s.take(4)) / 4) as u64, 4))
        } else {
            None
        }
    } else {
        let k = (s[0] / 4 + 4) as nat;
        if k <= 8 && s.len() >= 1 + k {
            Some((le_value(s.subrange(1, 1 + k as int)) as u64, 1 + k))
        } else {
            None
        }
    }
}

pub proof fn lemma_le_bytes_len(v: nat, k: nat)
    ensures
        le_bytes(v, k).len() == k,
    decreases k,
{
    if k > 0 {
        lemma_le_bytes_len(v / 256, (k - 1) as nat);
    }
}

pub proof fn lemma_pow256_pos(k: nat)
    ensures
        pow256(k) > 0,
    decreases k,
{
    if k > 0 {
        lemma_pow256_pos((k - 1) as nat);
    }
}

/// Little-endian bytes read back give the number modulo `256^k`.
pub proof fn lemma_le_round_trip(v: nat, k: nat)
    ensures
        le_value(le_bytes(v, k)) == v % pow256(k),
    decreases k,
{
    if k > 0 {
        let s = le_bytes(v, k);
        lemma_le_round_trip(v / 256, (k - 1) as nat);
        lemma_pow256_pos((k - 1) as nat);
        assert(s.drop_first() == le_bytes(v / 256, (k - 1) as nat));
        lemma_breakdown(v as int, 256, pow256((k - 1) as nat) as int);
    }
}

/// A number is below `256` to the power of its byte length.
pub proof fn lemma_byte_len_fits(v: nat)
    ensures
        v < pow256(byte_len(v)),
    decreases v,
{
    reveal_with_fuel(pow256, 2);
    if v >= 256 {
        lemma_byte_len_fits(v / 256);
        assert(v < pow256(byte_len(v))) by (nonlinear_arith)
            requires
                v / 256 < pow256(byte_len(v / 256)),
                pow256(byte_len(v)) == 256 * pow256(byte_len(v / 256)),
        ;
    }
}

/// A number below `256^j` needs at most `j` bytes, and one at or above it more.
pub proof fn lemma_byte_len_bounds(v: nat, j: nat)
    requires
        j >= 1,
    ensures
        v < pow256(j) ==> byte_len(v) <= j,
        v >= pow256(j) ==> byte_len(v) > j,
    decreases j,
{
    reveal_with_fuel(pow256, 2);
    lemma_pow256_pos((j - 1) as nat);
    if v >= 256 {
        assert(byte_len(v / 256) >= 1);
    }
    if j > 1 {
        lemma_byte_len_bounds(v / 256, (j - 1) as nat);
        assert(v < pow256(j) ==> v >= 256 || v < 256);
        assert(v < pow256(j) ==> v / 256 < pow256((j - 1) as nat)) by (nonlinear_arith)
            requires
                pow256(j) == 256 * pow256((j - 1) as nat),
        ;
        assert(v >= pow256(j) ==> v / 256 >= pow256((j - 1) as nat)) by (nonlinear_arith)
            requires
                pow256(j) == 256 * pow256((j - 1) as nat),
        ;
        assert(v >= pow256(j) ==> v >= 256) by (nonlinear_arith)
            requires
                pow256(j) == 256 * pow256((j - 1) as nat),
                pow256((j - 1) as nat) > 0,
        ;
    }
}

proof fn lemma_mode(x: nat, m: u8, k: nat)
    requires
        x % 4 == m as nat,
        k >= 1,
        m < 4,
    ensures
        (le_bytes(x, k)[0] as nat) % 4 == m as nat,
{
    lemma_mod_mod(x as int, 4, 64);
}

/// A compact integer read back gives the number and the length of its form,
/// whatever follows it.
pub proof fn lemma_compact_round_trip(n: u64, rest: Seq<u8>)
    ensures
        decode_compact(compact_of(n) + rest) == Some((n, compact_of(n).len())),
        compact_of(n).len() <= 9,
{
    let s = compact_of(n) + rest;
    reveal_with_fuel(pow256, 9);
    if n < 0x40 {
        assert(s[0] == (4 * n) as u8);
    } else if n < 0x4000 {
        let x = (4 * n + 1) as nat;
        lemma_le_bytes_len(x, 2);
        lemma_mode(x, 1, 2);
        assert(s.take(2) == le_bytes(x, 2));
        lemma_le_round_trip(x, 2);
        lemma_small_mod(x, pow256(2));
    } else if n < 0x4000_0000 {
        let x = (4 * n + 2) as nat;
        lemma_le_bytes_len(x, 4);
        lemma_mode(x, 2, 4);
        assert(s.take(4) == le_bytes(x, 4));
        lemma_le_round_trip(x, 4);
        lemma_small_mod(x, pow256(4));
    } else {
        let k = byte_len(n as nat);
        lemma_byte_len_bounds(n as nat, 3);
        lemma_byte_len_bounds(n as nat, 8);
        lemma_byte_len_fits(n as nat);
        lemma_le_bytes_len(n as nat, k);
        let b0 = (3 + 4 * (k - 4)) as u8;
        assert(s[0] == b0);
        assert(b0 % 4 == 3 && b0 / 4 + 4 == k);
        assert(s.subrange(1, 1 + k as int) == le_bytes(n as nat, k));
        lemma_le_round_trip(n as nat, k);
        lemma_pow256_pos(k);
        lemma_small_mod(n as nat, pow256(k));
    }
}

} // verus!

verus! {

/// Reads a byte string (compact length, then the bytes) from the front of `s`:
/// the bytes and how many bytes it took in all.
pub open spec fn decode_bytes(s: Seq<u8>) -> Option<(Seq<u8>, nat)> {
    match decode_compact(s) {
        Some((n, k)) => if s.len() >= k + n {
            Some((s.subrange(k as int, (k + n) as int), (k + n) as nat))
        } else {
            None
        },
        None => None,
    }
}

/// Reads a call from the front of `s`: the call and how many bytes it took.
pub open spec fn decode_call(s: Seq<u8>) -> Option<(CallModel, nat)>
    decreases s.len(),
{
    if s.len() < 2 {
        None
    } else if s[0] == SUDO_MODULE && s[1] == SUDO_CALL {
        match decode_call(s.skip(2)) {
            Some((inner, n)) => Some((CallModel::Privileged(Box::new(inner)), n + 2)),
            None => None,
        }
    } else if s[0] == CONTRACT_MODULE && s[1] == PUT_CODE_CALL && s.len() >= 10 {
        match decode_bytes(s.skip(10)) {
            Some((code, n)) => Some(
                (CallModel::PutCode(le_value(s.subrange(2, 10)) as u64, code), n + 10),
            ),
            None => None,
        }
    } else if s[0] == CONTRACT_MODULE && s[1] == CREATE_CALL && s.len() >= 58 {
        match decode_bytes(s.skip(58)) {
            Some((data, n)) => Some(
                (
                    CallModel::Create(
                        le_value(s.subrange(2, 18)) as u128,
                        le_value(s.subrange(18, 26)) as u64,
                        s.subrange(26, 58),
                        data,
                    ),
                    n + 58,
                ),
            ),
            None => None,
        }
    } else {
        None
    }
}

/// Reads the body of a signed extrinsic in wire format `version`, which must
/// take all of `b`.
pub open spec fn decode_body(b: Seq<u8>, version: ProtocolVersion) -> Option<ExtrinsicModel> {
    let t = version_tag(version);
    if b.len() >= 98 && b[0] == SIGNED_VERSION && b[1] == ADDRESS_ID {
        match decode_compact(b.skip(98)) {
            Some((nonce, k)) => if b.len() >= 99 + k + t.len() && b[(98 + k) as int]
                == IMMORTAL_ERA && b.subrange((99 + k) as int, (99 + k + t.len()) as int) == t {
                match decode_call(b.skip((99 + k + t.len()) as int)) {
                    Some((call, n)) => if 99 + k + t.len() + n == b.len() {
                        Some(
                            ExtrinsicModel {
                                version,
                                nonce,
                                call,
                                sender: b.subrange(2, 34),
                                signature: b.subrange(34, 98),
                            },
                        )
                    } else {
                        None
                    },
                    None => None,
                }
            } else {
                None
            },
            None => None,
        }
    } else {
        None
    }
}

/// Reads a length-prefixed signed extrinsic in wire format `version` that takes
/// all of `s`.
pub open spec fn decode_extrinsic(s: Seq<u8>, version: ProtocolVersion) -> Option<ExtrinsicModel> {
    match decode_bytes(s) {
        Some((body, n)) => if n == s.len() {
            decode_body(body, version)
        } else {
            None
        },
        None => None,
    }
}

pub proof fn lemma_bytes_round_trip(b: Seq<u8>, rest: Seq<u8>)
    requires
        b.len() <= u64::MAX,
    ensures
        decode_bytes(encode_bytes(b) + rest) == Some((b, encode_bytes(b).len())),
{
    let c = compact_of(b.len() as u64);
    lemma_compact_round_trip(b.len() as u64, b + rest);
    assert(encode_bytes(b) + rest == c + (b + rest));
    assert((c + (b + rest)).subrange(c.len() as int, (c.len() + b.len()) as int) == b);
}

pub proof fn lemma_u64_le_round_trip(v: u64)
    ensures
        le_bytes(v as nat, 8).len() == 8,
        le_value(le_bytes(v as nat, 8)) as u64 == v,
{
    reveal_with_fuel(pow256, 9);
    lemma_le_bytes_len(v as nat, 8);
    lemma_le_round_trip(v as nat, 8);
    lemma_small_mod(v as nat, pow256(8));
}

pub proof fn lemma_u128_le_round_trip(v: u128)
    ensures
        le_bytes(v as nat, 16).len() == 16,
        le_value(le_bytes(v as nat, 16)) as u128 == v,
{
    reveal_with_fuel(pow256, 17);
    lemma_le_bytes_len(v as nat, 16);
    lemma_le_round_trip(v as nat, 16);
    lemma_small_mod(v as nat, pow256(16));
}

proof fn lemma_put_code_round_trip(gas: u64, code: Seq<u8>, rest: Seq<u8>)
    requires
        code.len() <= u64::MAX,
    ensures
        decode_call(encode_call(CallModel::PutCode(gas, code)) + rest) == Some(
            (CallModel::PutCode(gas, code), encode_call(CallModel::PutCode(gas, code)).len()),
        ),
{
    let args = le_bytes(gas as nat, 8);
    let s = encode_call(CallModel::PutCode(gas, code)) + rest;
    lemma_u64_le_round_trip(gas);
    lemma_bytes_round_trip(code, rest);
    assert(s == seq![CONTRACT_MODULE, PUT_CODE_CALL] + args + (encode_bytes(code) + rest));
    assert(s[0] == CONTRACT_MODULE && s[1] == PUT_CODE_CALL);
    assert(s.subrange(2, 10) == args);
    assert(s.skip(10) == encode_bytes(code) + rest);
}

proof fn lemma_create_round_trip(endowment: u128, gas: u64, hash: Seq<u8>, data: Seq<u8>, rest: Seq<u8>)
    requires
        hash.len() == 32,
        data.len() <= u64::MAX,
    ensures
        decode_call(encode_call(CallModel::Create(endowment, gas, hash, data)) + rest) == Some(
            (
                CallModel::Create(endowment, gas, hash, data),
                encode_call(CallModel::Create(endowment, gas, hash, data)).len(),
            ),
        ),
{
    let e = le_bytes(endowment as nat, 16);
    let g = le_bytes(gas as nat, 8);
    let s = encode_call(CallModel::Create(endowment, gas, hash, data)) + rest;
    lemma_u128_le_round_trip(endowment);
    lemma_u64_le_round_trip(gas);
    lemma_bytes_round_trip(data, rest);
    assert(s == seq![CONTRACT_MODULE, CREATE_CALL] + e + g + hash + (encode_bytes(data) + rest));
    assert(s[0] == CONTRACT_MODULE && s[1] == CREATE_CALL);
    assert(s.subrange(2, 18) == e);
    assert(s.subrange(18, 26) == g);
    assert(s.subrange(26, 58) == hash);
    assert(s.skip(58) == encode_bytes(data) + rest);
}

/// A well-formed call read back from its wire form gives the call and the
/// length of that form, whatever follows it.
pub proof fn lemma_call_round_trip(c: CallModel, rest: Seq<u8>)
    requires
        call_wf(c),
    ensures
        decode_call(encode_call(c) + rest) == Some((c, encode_call(c).len())),
    decreases c,
{
    match c {
        CallModel::Privileged(inner) => {
            let s = encode_call(c) + rest;
            lemma_call_round_trip(*inner, rest);
            assert(s == seq![SUDO_MODULE, SUDO_CALL] + (encode_call(*inner) + rest));
            assert(s.skip(2) == encode_call(*inner) + rest);
        },
        CallModel::PutCode(gas, code) => lemma_put_code_round_trip(gas, code, rest),
        CallModel::Create(endowment, gas, hash, data) => lemma_create_round_trip(
            endowment,
            gas,
            hash,
            data,
            rest,
        ),
    }
}

proof fn lemma_body_round_trip(x: ExtrinsicModel)
    requires
        extrinsic_wf(x),
    ensures
        decode_body(extrinsic_body(x), x.version) == Some(x),
{
    let head = seq![SIGNED_VERSION, ADDRESS_ID] + x.sender + x.signature;
    let nonce = compact_of(x.nonce);
    let t = version_tag(x.version);
    let call = encode_call(x.call);
    let tail = seq![IMMORTAL_ERA] + t + call;
    let body = extrinsic_body(x);
    assert(head.len() == 98);
    assert(body == head + (nonce + tail));
    assert(body.skip(98) == nonce + tail);
    lemma_compact_round_trip(x.nonce, tail);
    let k = nonce.len() as int;
    lemma_call_round_trip(x.call, Seq::empty());
    assert(call + Seq::<u8>::empty() == call);
    assert(body[98 + k] == IMMORTAL_ERA);
    assert(body.subrange(99 + k, 99 + k + t.len() as int) == t);
    assert(body.skip(99 + k + t.len() as int) == call);
    assert(body.subrange(2, 34) == x.sender);
    assert(body.subrange(34, 98) == x.signature);
}

/// Decoding the wire form of a well-formed signed extrinsic gives back that
/// extrinsic, for every kind of call and either wire format.
pub proof fn lemma_extrinsic_round_trip(x: ExtrinsicModel)
    requires
        extrinsic_wf(x),
        extrinsic_body(x).len() <= u64::MAX,
    ensures
        decode_extrinsic(encode_extrinsic(x), x.version) == Some(x),
{
    let body = extrinsic_body(x);
    lemma_bytes_round_trip(body, Seq::empty());
    assert(encode_extrinsic(x) + Seq::<u8>::empty() == encode_extrinsic(x));
    lemma_body_round_trip(x);
}

} // verus!

use vstd::prelude::*;
use crate::bytes::{decode_u64, from_hex, le_bytes, le_value, prefixed_hex, push_all, push_le, to_prefixed_hex, unhex};
use crate::crypto::{xxhash64, xxhash64_of};
use vstd::string::StringSliceAdditionalSpecFns;

verus! {

/// A reply of the node, as far as the decoding here needs it.
pub enum RpcReply {
    /// `null`, or no value.
    Absent,
    /// An unsigned integer.
    Number(u64),
    /// A string.
    Text(String),
    /// An error object.
    Failure,
    /// Anything else.
    Other,
}

#[derive(Debug, Clone, Copy, PartialEq, Eq, Structural)]
pub enum QueryError {
    /// The node could not be reached.
    Unreachable,
    /// The node's reply does not have the expected shape.
    MalformedResponse,
}

#[derive(Debug, Clone, Copy, PartialEq, Eq, Structural)]
pub enum SubmissionError {
    /// The node answered with something other than a subscription id.
    Rejected,
    /// The node did not answer in time.
    Timeout,
}

/// Name of the account-nonce map in the system module's storage.
pub open spec fn account_nonce_prefix() -> Seq<u8> {
    // "System AccountNonce"
    seq![
        0x53u8, 0x79, 0x73, 0x74, 0x65, 0x6d, 0x20, 0x41, 0x63, 0x63, 0x6f, 0x75, 0x6e, 0x74,
        0x4e, 0x6f, 0x6e, 0x63, 0x65,
    ]
}

/// The 128-bit xxHash of `data`: the 64-bit hashes under seeds 0 and 1,
/// each little-endian.
pub open spec fn twox_128_of(data: Seq<u8>) -> Seq<u8> {
    le_bytes(xxhash64_of(0, data) as nat, 8) + le_bytes(xxhash64_of(1, data) as nat, 8)
}

/// The storage key of the nonce of `account_id`.
pub open spec fn sequence_number_key_of(account_id: Seq<u8>) -> Seq<u8> {
    twox_128_of(account_nonce_prefix() + account_id)
}

/// The 128-bit xxHash of `data`.
pub fn twox_128(data: &[u8]) -> (r: Vec<u8>)
    ensures
        r@ == twox_128_of(data@),
{
    let mut out: Vec<u8> = Vec::new();
    push_le(&mut out, xxhash64(0, data) as u128, 8);
    push_le(&mut out, xxhash64(1, data) as u128, 8);
    out
}

/// The storage key under which the node keeps the nonce of `account_id`.
pub fn sequence_number_key(account_id: &[u8]) -> (r: Vec<u8>)
    ensures
        r@ == sequence_number_key_of(account_id@),
{
    let mut key: Vec<u8> = vec![
        0x53u8, 0x79, 0x73, 0x74, 0x65, 0x6d, 0x20, 0x41, 0x63, 0x63, 0x6f, 0x75, 0x6e, 0x74,
        0x4e, 0x6f, 0x6e, 0x63, 0x65,
    ];
    assert(key@ == account_nonce_prefix());
    push_all(&mut key, account_id);
    twox_128(key.as_slice())
}

/// That key as the `0x`-prefixed hex that `state_getStorage` takes.
pub fn account_nonce_key(account_id: &[u8]) -> (r: String)
    ensures
        r@ == prefixed_hex(sequence_number_key_of(account_id@)),
{
    let key = sequence_number_key(account_id);
    to_prefixed_hex(key.as_slice())
}

/// The bytes that `0x`-prefixed hex text `t` spells.
pub open spec fn hex_payload(t: Seq<u8>) -> Option<Seq<u8>> {
    if t.len() >= 2 && t[0] == 0x30 && t[1] == 0x78 {
        unhex(t.skip(2))
    } else {
        None
    }
}

/// The bytes of a text reply.
pub open spec fn reply_text(s: String) -> Seq<u8> {
    vstd::utf8::encode_utf8(s@)
}

/// The nonce that a `state_getStorage` reply gives: zero where no value is
/// stored, the eight little-endian bytes that a hex string spells, and an error
/// for anything else.
pub open spec fn nonce_of_reply(reply: RpcReply) -> Result<u64, QueryError> {
    match reply {
        RpcReply::Absent => Ok(0),
        RpcReply::Text(s) => match hex_payload(reply_text(s)) {
            Some(b) => if b.len() == 8 {
                Ok(le_value(b) as u64)
            } else {
                Err(QueryError::MalformedResponse)
            },
            None => Err(QueryError::MalformedResponse),
        },
        _ => Err(QueryError::MalformedResponse),
    }
}

/// The genesis hash that a `chain_getBlockHash` reply gives: the 32 bytes that
/// a hex string spells, and an error for anything else.
pub open spec fn hash_of_reply(reply: RpcReply) -> Result<Seq<u8>, QueryError> {
    match reply {
        RpcReply::Text(s) => match hex_payload(reply_text(s)) {
            Some(b) => if b.len() == 32 {
                Ok(b)
            } else {
                Err(QueryError::MalformedResponse)
            },
            None => Err(QueryError::MalformedResponse),
        },
        _ => Err(QueryError::MalformedResponse),
    }
}

/// The bytes that the `0x`-prefixed hex text `s` spells.
pub fn decode_prefixed_hex(s: &str) -> (r: Option<Vec<u8>>)
    ensures
        match r {
            Some(v) => hex_payload(s.spec_bytes()) == Some(v@),
            None => hex_payload(s.spec_bytes()) is None,
        },
{
    let t = s.as_bytes();
    if t.len() >= 2 && t[0] == 0x30 && t[1] == 0x78 {
        let mut digits: Vec<u8> = Vec::new();
        let mut i: usize = 2;
        while i < t.len()
            invariant
                2 <= i <= t@.len(),
                digits@ == t@.subrange(2, i as int),
            decreases t@.len() - i,
        {
            digits.push(t[i]);
            assert(t@.subrange(2, i as int + 1) == t@.subrange(2, i as int).push(t@[i as int]));
            i = i + 1;
        }
        assert(digits@ == t@.skip(2));
        from_hex(digits.as_slice())
    } else {
        None
    }
}

/// Decodes the reply to `state_getStorage` for an account's nonce key.
pub fn account_nonce(reply: &RpcReply) -> (r: Result<u64, QueryError>)
    ensures
        r == nonce_of_reply(*reply),
{
    match reply {
        RpcReply::Absent => Ok(0),
        RpcReply::Text(s) => match decode_prefixed_hex(s.as_str()) {
            Some(b) => if b.len() == 8 {
                match decode_u64(b.as_slice()) {
                    Some(n) => {
                        assert(b@.take(8) == b@);
                        Ok(n)
                    },
                    None => Err(QueryError::MalformedResponse),
                }
            } else {
                Err(QueryError::MalformedResponse)
            },
            None => Err(QueryError::MalformedResponse),
        },
        _ => Err(QueryError::MalformedResponse),
    }
}

/// Decodes the reply to `chain_getBlockHash` for block 0.
pub fn genesis_hash(reply: &RpcReply) -> (r: Result<Vec<u8>, QueryError>)
    ensures
        match r {
            Ok(h) => hash_of_reply(*reply) == Ok::<Seq<u8>, QueryError>(h@),
            Err(e) => hash_of_reply(*reply) == Err::<Seq<u8>, QueryError>(e),
        },
{
    match reply {
        RpcReply::Text(s) => match decode_prefixed_hex(s.as_str()) {
            Some(b) => if b.len() == 32 {
                Ok(b)
            } else {
                Err(QueryError::MalformedResponse)
            },
            None => Err(QueryError::MalformedResponse),
        },
        _ => Err(QueryError::MalformedResponse),
    }
}

/// Decodes the reply to `author_submitAndWatchExtrinsic`: the subscription id,
/// or `Rejected` for an error object or any other reply.
pub fn deploy_contract(reply: &RpcReply) -> (r: Result<u64, SubmissionError>)
    ensures
        match *reply {
            RpcReply::Number(n) => r == Ok::<u64, SubmissionError>(n),
            _ => r == Err::<u64, SubmissionError>(SubmissionError::Rejected),
        },
{
    match reply {
        RpcReply::Number(n) => Ok(*n),
        _ => Err(SubmissionError::Rejected),
    }
}

#[derive(Debug, Clone, Copy, PartialEq, Eq, Structural)]
pub enum NotificationError {
    /// The notification names no subscription id.
    MalformedPayload,
    /// The notification is for another subscription.
    UnknownSubscription,
}

/// Checks that a notification whose `params.subscription` is `notified`
/// belongs to the submission with subscription id `subscription`.
pub fn check_notification(subscription: u64, notified: &RpcReply) -> (r: Result<(), NotificationError>)
    ensures
        match *notified {
            RpcReply::Number(n) => if n == subscription {
                r == Ok::<(), NotificationError>(())
            } else {
                r == Err::<(), NotificationError>(NotificationError::UnknownSubscription)
            },
            _ => r == Err::<(), NotificationError>(NotificationError::MalformedPayload),
        },
{
    match notified {
        RpcReply::Number(n) => if *n == subscription {
            Ok(())
        } else {
            Err(NotificationError::UnknownSubscription)
        },
        _ => Err(NotificationError::MalformedPayload),
    }
}

/// Equal account ids give equal nonce storage keys, and equal hex key strings
/// for `state_getStorage`: the key depends on the account id alone.
pub proof fn sequence_number_key_is_stable(a: Seq<u8>, b: Seq<u8>)
    requires
        a == b,
    ensures
        sequence_number_key_of(a) == sequence_number_key_of(b),
        prefixed_hex(sequence_number_key_of(a)) == prefixed_hex(sequence_number_key_of(b)),
{
}

} // verus!

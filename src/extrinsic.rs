use vstd::prelude::*;
use crate::bytes::{compact_of, encode_compact, le_bytes, prefixed_hex, push_all, push_le, to_prefixed_hex};
use crate::crypto::{blake2_256, blake2_256_of, ed25519_signature_of};
use crate::keys::{padded_seed, Keypair, RawSeed};

verus! {

/// Index of the privileged-call module in the runtime's call enum.
pub const SUDO_MODULE: u8 = 15;
/// Index of `sudo` within that module.
pub const SUDO_CALL: u8 = 0;
/// Index of the contract module in the runtime's call enum.
pub const CONTRACT_MODULE: u8 = 14;
/// Index of `put_code` within the contract module.
pub const PUT_CODE_CALL: u8 = 1;
/// Index of `create` within the contract module.
pub const CREATE_CALL: u8 = 3;
/// First byte of a signed extrinsic: the signed flag and transaction version 1.
pub const SIGNED_VERSION: u8 = 0x81;
/// Tag of an address given directly as an account id.
pub const ADDRESS_ID: u8 = 0xff;
/// Encoding of the immortal era.
pub const IMMORTAL_ERA: u8 = 0;
/// Longest payload that is signed as it is; a longer one has its digest signed.
pub const MAX_DIRECT_SIGN: usize = 256;
/// Format version written by `ProtocolVersion::Versioned`.
pub const FORMAT_VERSION: u64 = 1;
/// Gas limit of the put-code preset.
pub const PUT_CODE_GAS: u64 = 99999;
/// Endowment of the create preset.
pub const CREATE_ENDOWMENT: u128 = 100;
/// Gas limit of the create preset.
pub const CREATE_GAS: u64 = 1_000_000;

/// The node's wire format. `Plain` signs (nonce, call, era, genesis hash) and
/// sends (address, signature, nonce, era) before the call; `Versioned` appends
/// the compact `FORMAT_VERSION` to both.
#[derive(Debug, Clone, Copy, PartialEq, Eq, Structural)]
pub enum ProtocolVersion {
    Plain,
    Versioned,
}

/// The bytes that `v` adds after the era.
pub open spec fn version_tag(v: ProtocolVersion) -> Seq<u8> {
    match v {
        ProtocolVersion::Plain => Seq::empty(),
        ProtocolVersion::Versioned => compact_of(FORMAT_VERSION),
    }
}

/// Appends the bytes that `v` adds after the era.
fn push_version_tag(out: &mut Vec<u8>, v: ProtocolVersion)
    ensures
        final(out)@ == old(out)@ + version_tag(v),
{
    match v {
        ProtocolVersion::Plain => {
            assert(out@ + Seq::<u8>::empty() == out@);
        },
        ProtocolVersion::Versioned => {
            let tag = encode_compact(FORMAT_VERSION);
            push_all(out, tag.as_slice());
        },
    }
}

/// A call of the runtime that this client can build.
pub enum CallPayload {
    /// A call dispatched with root rights.
    Privileged(Box<CallPayload>),
    /// Stores contract code.
    PutCode { gas_limit: u64, code: Vec<u8> },
    /// Instantiates stored contract code.
    Create { endowment: u128, gas_limit: u64, code_hash: Vec<u8>, data: Vec<u8> },
}

/// What a `CallPayload` holds.
pub enum CallModel {
    Privileged(Box<CallModel>),
    PutCode(u64, Seq<u8>),
    Create(u128, u64, Seq<u8>, Seq<u8>),
}

pub open spec fn call_model(c: CallPayload) -> CallModel
    decreases c,
{
    match c {
        CallPayload::Privileged(inner) => CallModel::Privileged(Box::new(call_model(*inner))),
        CallPayload::PutCode { gas_limit, code } => CallModel::PutCode(gas_limit, code@),
        CallPayload::Create { endowment, gas_limit, code_hash, data } => CallModel::Create(
            endowment,
            gas_limit,
            code_hash@,
            data@,
        ),
    }
}

impl View for CallPayload {
    type V = CallModel;

    open spec fn view(&self) -> CallModel {
        call_model(*self)
    }
}

/// A call whose code hash is 32 bytes and whose byte strings have lengths that
/// fit in 64 bits, at every level.
pub open spec fn call_wf(c: CallModel) -> bool
    decreases c,
{
    match c {
        CallModel::Privileged(inner) => call_wf(*inner),
        CallModel::PutCode(_, code) => code.len() <= u64::MAX,
        CallModel::Create(_, _, h, data) => h.len() == 32 && data.len() <= u64::MAX,
    }
}

/// A byte string: its compact length, then its bytes.
pub open spec fn encode_bytes(b: Seq<u8>) -> Seq<u8> {
    compact_of(b.len() as u64) + b
}

/// The wire form of a call: module index, call index, then the arguments.
pub open spec fn encode_call(c: CallModel) -> Seq<u8>
    decreases c,
{
    match c {
        CallModel::Privileged(inner) => seq![SUDO_MODULE, SUDO_CALL] + encode_call(*inner),
        CallModel::PutCode(gas, code) => seq![CONTRACT_MODULE, PUT_CODE_CALL] + le_bytes(
            gas as nat,
            8,
        ) + encode_bytes(code),
        CallModel::Create(endowment, gas, hash, data) => seq![CONTRACT_MODULE, CREATE_CALL]
            + le_bytes(endowment as nat, 16) + le_bytes(gas as nat, 8) + hash + encode_bytes(data),
    }
}

/// The bytes that are signed: compact nonce, call, immortal era, genesis hash,
/// then what the protocol version adds.
pub open spec fn signing_payload(
    nonce: u64,
    call: CallModel,
    genesis: Seq<u8>,
    version: ProtocolVersion,
) -> Seq<u8> {
    compact_of(nonce) + encode_call(call) + seq![IMMORTAL_ERA] + genesis + version_tag(version)
}

/// What the signature covers: the payload itself up to `MAX_DIRECT_SIGN` bytes,
/// its BLAKE2b-256 digest beyond.
pub open spec fn signing_input(p: Seq<u8>) -> Seq<u8> {
    if p.len() > MAX_DIRECT_SIGN {
        blake2_256_of(p)
    } else {
        p
    }
}

/// What a `SignedExtrinsic` holds.
pub struct ExtrinsicModel {
    pub version: ProtocolVersion,
    pub nonce: u64,
    pub call: CallModel,
    pub sender: Seq<u8>,
    pub signature: Seq<u8>,
}

/// A signed extrinsic with an immortal era.
pub struct SignedExtrinsic {
    pub version: ProtocolVersion,
    pub nonce: u64,
    pub call: CallPayload,
    pub sender: Vec<u8>,
    pub signature: Vec<u8>,
}

impl View for SignedExtrinsic {
    type V = ExtrinsicModel;

    open spec fn view(&self) -> ExtrinsicModel {
        ExtrinsicModel {
            version: self.version,
            nonce: self.nonce,
            call: self.call@,
            sender: self.sender@,
            signature: self.signature@,
        }
    }
}

/// A 32-byte sender, a 64-byte signature and a well-formed call.
pub open spec fn extrinsic_wf(x: ExtrinsicModel) -> bool {
    &&& x.sender.len() == 32
    &&& x.signature.len() == 64
    &&& call_wf(x.call)
}

/// The extrinsic without its length prefix: version byte, address, signature,
/// compact nonce, era, what the protocol version adds, then the call.
pub open spec fn extrinsic_body(x: ExtrinsicModel) -> Seq<u8> {
    seq![SIGNED_VERSION, ADDRESS_ID] + x.sender + x.signature + compact_of(x.nonce) + seq![
        IMMORTAL_ERA,
    ] + version_tag(x.version) + encode_call(x.call)
}

/// The wire form of an extrinsic: its body behind the body's compact length.
pub open spec fn encode_extrinsic(x: ExtrinsicModel) -> Seq<u8> {
    encode_bytes(extrinsic_body(x))
}

/// Appends the compact length of `b`, then `b`.
fn push_bytes(out: &mut Vec<u8>, b: &[u8])
    ensures
        final(out)@ == old(out)@ + encode_bytes(b@),
{
    let len = encode_compact(b.len() as u64);
    push_all(out, len.as_slice());
    push_all(out, b);
    assert(out@ == old(out)@ + encode_bytes(b@));
}

/// Appends the wire form of `c`.
pub fn encode_call_to(c: &CallPayload, out: &mut Vec<u8>)
    ensures
        final(out)@ == old(out)@ + encode_call(c@),
    decreases c,
{
    let ghost start = out@;
    match c {
        CallPayload::Privileged(inner) => {
            out.push(SUDO_MODULE);
            out.push(SUDO_CALL);
            encode_call_to(inner, out);
            assert(out@ == start + encode_call(c@));
        },
        CallPayload::PutCode { gas_limit, code } => {
            out.push(CONTRACT_MODULE);
            out.push(PUT_CODE_CALL);
            push_le(out, *gas_limit as u128, 8);
            push_bytes(out, code.as_slice());
            assert(out@ == start + encode_call(c@));
        },
        CallPayload::Create { endowment, gas_limit, code_hash, data } => {
            out.push(CONTRACT_MODULE);
            out.push(CREATE_CALL);
            push_le(out, *endowment, 16);
            push_le(out, *gas_limit as u128, 8);
            push_all(out, code_hash.as_slice());
            push_bytes(out, data.as_slice());
            assert(out@ == start + encode_call(c@));
        },
    }
}

/// The bytes to sign for `call` with nonce `index` on the chain of `genesis`.
pub fn encode_signing_payload(
    index: u64,
    call: &CallPayload,
    genesis: &[u8],
    version: ProtocolVersion,
) -> (r: Vec<u8>)
    ensures
        r@ == signing_payload(index, call@, genesis@, version),
{
    let mut out = encode_compact(index);
    encode_call_to(call, &mut out);
    out.push(IMMORTAL_ERA);
    push_all(&mut out, genesis);
    push_version_tag(&mut out, version);
    out
}

/// The message that is signed for `payload`: the payload itself, or its digest
/// when it is longer than `MAX_DIRECT_SIGN`.
pub fn signing_message(payload: Vec<u8>) -> (r: Vec<u8>)
    ensures
        r@ == signing_input(payload@),
{
    if payload.len() > MAX_DIRECT_SIGN {
        blake2_256(payload.as_slice())
    } else {
        payload
    }
}

/// Signs `payload` directly when it is at most `MAX_DIRECT_SIGN` bytes long,
/// and signs its BLAKE2b-256 digest otherwise.
pub fn sign_payload(pair: &Keypair, payload: Vec<u8>) -> (r: Vec<u8>)
    requires
        pair.wf(),
    ensures
        r@ == ed25519_signature_of(pair.secret@, signing_input(payload@)),
        r@.len() == 64,
{
    let msg = signing_message(payload);
    pair.sign(msg.as_slice())
}

impl SignedExtrinsic {
    /// The extrinsic's wire form.
    pub fn encode(&self) -> (r: Vec<u8>)
        ensures
            r@ == encode_extrinsic(self@),
    {
        let mut body: Vec<u8> = Vec::new();
        body.push(SIGNED_VERSION);
        body.push(ADDRESS_ID);
        push_all(&mut body, self.sender.as_slice());
        push_all(&mut body, self.signature.as_slice());
        let nonce = encode_compact(self.nonce);
        push_all(&mut body, nonce.as_slice());
        body.push(IMMORTAL_ERA);
        push_version_tag(&mut body, self.version);
        encode_call_to(&self.call, &mut body);
        assert(body@ == extrinsic_body(self@));
        let mut out: Vec<u8> = Vec::new();
        push_bytes(&mut out, body.as_slice());
        assert(out@ == encode_extrinsic(self@));
        out
    }
}

/// The signed extrinsic that `generate_tx` builds.
pub open spec fn signed_extrinsic(
    secret: Seq<u8>,
    sender: Seq<u8>,
    call: CallModel,
    index: u64,
    genesis: Seq<u8>,
    version: ProtocolVersion,
) -> ExtrinsicModel {
    ExtrinsicModel {
        version,
        nonce: index,
        call,
        sender,
        signature: ed25519_signature_of(
            secret,
            signing_input(signing_payload(index, call, genesis, version)),
        ),
    }
}

/// Signs `function` for `sender` with nonce `index` on the chain of genesis
/// hash `hash` in the wire format `version`, and returns the extrinsic's wire
/// form as `0x`-prefixed hex.
pub fn generate_tx(
    raw_seed: &RawSeed,
    sender: Vec<u8>,
    function: CallPayload,
    index: u64,
    hash: &[u8],
    version: ProtocolVersion,
) -> (r: String)
    ensures
        r@ == prefixed_hex(
            encode_extrinsic(
                signed_extrinsic(
                    padded_seed(raw_seed.text@),
                    sender@,
                    function@,
                    index,
                    hash@,
                    version,
                ),
            ),
        ),
{
    let payload = encode_signing_payload(index, &function, hash, version);
    let pair = raw_seed.pair();
    let signature = sign_payload(&pair, payload);
    let uxt = SignedExtrinsic { version, nonce: index, call: function, sender, signature };
    let t = uxt.encode();
    to_prefixed_hex(t.as_slice())
}

/// The privileged (root) form of `inner`.
pub fn privileged(inner: CallPayload) -> (r: CallPayload)
    ensures
        r@ == CallModel::Privileged(Box::new(inner@)),
{
    CallPayload::Privileged(Box::new(inner))
}

/// The call that stores `code`, with the preset gas limit.
pub fn put_code_call(code: Vec<u8>) -> (r: CallPayload)
    ensures
        r@ == CallModel::PutCode(PUT_CODE_GAS, code@),
{
    CallPayload::PutCode { gas_limit: PUT_CODE_GAS, code }
}

/// The call that instantiates the code `code`, found by its BLAKE2b-256 hash,
/// with the preset endowment and gas limit and no constructor data.
pub fn create_call(code: &[u8]) -> (r: CallPayload)
    ensures
        r@ == CallModel::Create(CREATE_ENDOWMENT, CREATE_GAS, blake2_256_of(code@), Seq::empty()),
        call_wf(r@),
{
    CallPayload::Create {
        endowment: CREATE_ENDOWMENT,
        gas_limit: CREATE_GAS,
        code_hash: blake2_256(code),
        data: Vec::new(),
    }
}

/// A transaction in the plain wire format that stores `code` on chain.
pub fn generate_put_code_tx(seed: &RawSeed, from: Vec<u8>, index: u64, hash: &[u8], code: Vec<u8>) -> (r: String)
    ensures
        r@ == prefixed_hex(
            encode_extrinsic(
                signed_extrinsic(
                    padded_seed(seed.text@),
                    from@,
                    CallModel::PutCode(PUT_CODE_GAS, code@),
                    index,
                    hash@,
                    ProtocolVersion::Plain,
                ),
            ),
        ),
{
    generate_tx(seed, from, put_code_call(code), index, hash, ProtocolVersion::Plain)
}

/// A transaction in the plain wire format that instantiates the contract whose
/// code is `code`.
pub fn generate_create_contract_tx(seed: &RawSeed, from: Vec<u8>, index: u64, hash: &[u8], code: &[u8]) -> (r: String)
    ensures
        r@ == prefixed_hex(
            encode_extrinsic(
                signed_extrinsic(
                    padded_seed(seed.text@),
                    from@,
                    CallModel::Create(CREATE_ENDOWMENT, CREATE_GAS, blake2_256_of(code@), Seq::empty()),
                    index,
                    hash@,
                    ProtocolVersion::Plain,
                ),
            ),
        ),
{
    generate_tx(seed, from, create_call(code), index, hash, ProtocolVersion::Plain)
}

} // verus!

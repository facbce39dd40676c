use vstd::prelude::*;

use crate::errors::Web3Error;
use crate::types::Address;

verus! {

/// The 32-byte hash that the ABI assigns to an event signature string.
/// Named rather than written out: it is a Keccak digest, a pure function of
/// the signature characters alone.
pub uninterp spec fn sig_hash_of(s: Seq<char>) -> Seq<u8>;

/// The shape check the signature hasher applies before hashing: no spaces,
/// and both parentheses present.
pub open spec fn sig_well_formed(s: Seq<char>) -> bool {
    &&& !s.contains(' ')
    &&& s.contains('(')
    &&& s.contains(')')
}

/// Relies on clarity::abi::derive_signature: rejects a signature exactly
/// when it holds a space or lacks a parenthesis, and otherwise returns the
/// 32-byte Keccak digest of the signature characters.
#[verifier::external_body]
fn derive_sig(signature: &str) -> (r: Result<Vec<u8>, Web3Error>)
    ensures
        r is Ok <==> sig_well_formed(signature@),
        r is Ok ==> r->Ok_0@ == sig_hash_of(signature@) && r->Ok_0@.len() == 32,
{
    match clarity::abi::derive_signature(signature) {
        Ok(digest) => Ok(digest.to_vec()),
        Err(_) => Err(Web3Error::SignatureError),
    }
}

/// The canonical hash ("topic 0") of an event signature, or
/// `SignatureError` for a signature that does not parse.
pub fn event_topic(signature: &str) -> (r: Result<Vec<u8>, Web3Error>)
    ensures
        r is Ok <==> sig_well_formed(signature@),
        r is Err ==> r->Err_0 == Web3Error::SignatureError,
        r is Ok ==> r->Ok_0@ == sig_hash_of(signature@) && r->Ok_0@.len() == 32,
{
    match derive_sig(signature) {
        Ok(v) => Ok(v),
        Err(_) => Err(Web3Error::SignatureError),
    }
}

/// The event topic is a function of the signature characters alone: equal
/// signatures always hash to the same topic.
pub proof fn lemma_event_topic_deterministic(s1: Seq<char>, s2: Seq<char>)
    requires
        s1 == s2,
    ensures
        sig_hash_of(s1) == sig_hash_of(s2),
{
}

/// The topic slot that matches an indexed `address` argument: the 20
/// address bytes in the low end of a 32-byte word, high 12 bytes zero.
pub fn address_to_event(address: Address) -> (r: Vec<u8>)
    requires
        address.wf(),
    ensures
        r@.len() == 32,
        forall|i: int| 0 <= i < 12 ==> r@[i] == 0,
        r@.subrange(12, 32) == address@,
{
    let mut r: Vec<u8> = Vec::new();
    let mut i: usize = 0;
    while i < 12
        invariant
            i <= 12,
            r@.len() == i,
            forall|j: int| 0 <= j < i ==> r@[j] == 0,
        decreases 12 - i,
    {
        r.push(0u8);
        i = i + 1;
    }
    let mut j: usize = 0;
    while j < address.bytes.len()
        invariant
            j <= address@.len(),
            address@.len() == 20,
            r@.len() == 12 + j,
            forall|k: int| 0 <= k < 12 ==> r@[k] == 0,
            r@.subrange(12, r@.len() as int) == address@.take(j as int),
        decreases address@.len() - j,
    {
        r.push(address.bytes[j]);
        j = j + 1;
        proof {
            assert(r@.subrange(12, r@.len() as int) =~= address@.take(j as int));
        }
    }
    proof {
        assert(address@.take(20) =~= address@);
    }
    r
}

/// Recovers the address held in the low 20 bytes of a topic slot.
pub fn topic_to_address(topic: &Vec<u8>) -> (r: Result<Address, Web3Error>)
    ensures
        r is Ok <==> topic@.len() == 32,
        r is Ok ==> r->Ok_0.wf() && r->Ok_0@ == topic@.subrange(12, 32),
{
    if topic.len() != 32 {
        return Err(Web3Error::DecodeError("topic must be 32 bytes".to_owned()));
    }
    let mut bytes: Vec<u8> = Vec::new();
    let mut i: usize = 12;
    while i < 32
        invariant
            12 <= i <= 32,
            topic@.len() == 32,
            bytes@ == topic@.subrange(12, i as int),
        decreases 32 - i,
    {
        bytes.push(topic[i]);
        i = i + 1;
        proof {
            assert(bytes@ =~= topic@.subrange(12, i as int));
        }
    }
    Ok(Address { bytes })
}

/// Embedding an address in a topic slot and stripping the high 12 bytes
/// gives back the original address.
pub proof fn lemma_address_topic_roundtrip(addr: Seq<u8>, topic: Seq<u8>)
    requires
        addr.len() == 20,
        topic.len() == 32,
        forall|i: int| 0 <= i < 12 ==> topic[i] == 0,
        topic.subrange(12, 32) == addr,
    ensures
        topic.subrange(12, 32) =~= addr,
        topic =~= Seq::new(12, |i: int| 0u8) + addr,
{
    assert(topic =~= Seq::new(12, |i: int| 0u8) + addr);
}

/// ABI argument values are carried through to the encoder opaquely; the
/// core never reads inside one.
#[verifier::external_type_specification]
#[verifier::external_body]
pub struct ExAbiToken(clarity::abi::AbiToken);

/// A character the ABI argument counter never trims away: an ASCII
/// letter, digit or underscore, the stuff of an identifier.
pub open spec fn counted_char(c: char) -> bool {
    ||| 'a' <= c && c <= 'z'
    ||| 'A' <= c && c <= 'Z'
    ||| '0' <= c && c <= '9'
    ||| c == '_'
}

/// Signatures whose argument counter finds at least the function name:
/// some identifier character survives the counter's splitting on
/// parentheses and its trimming of brackets, commas and whitespace, so
/// the count it subtracts one from is at least one.
pub open spec fn sig_encodable(s: Seq<char>) -> bool {
    exists|i: int| 0 <= i < s.len() && counted_char(#[trigger] s[i])
}

/// The token lists the ABI serializer encodes without panicking: every
/// fixed-width string or byte value fits in 32 bytes, and no dynamic
/// string or byte value is empty. A function of the token values, which
/// this crate does not look into, so it is named rather than written out.
pub uninterp spec fn tokens_encodable(tokens: Seq<clarity::abi::AbiToken>) -> bool;

/// What the ABI call encoder returns: `None` where it rejects the
/// signature or a token count that does not match the signature's
/// argument count, else the encoded call data. A function of the
/// signature characters and the token values alone.
pub uninterp spec fn abi_encoding_of(sig: Seq<char>, tokens: Seq<clarity::abi::AbiToken>) -> Option<
    Seq<u8>,
>;

/// Relies on clarity::abi::encode_call: it fails exactly where the
/// signature is malformed or the token count does not match the
/// signature's argument count, and on success returns the method selector
/// (the first four bytes of the signature hash) followed by the encoded
/// arguments. The `requires` keep out the inputs on which the encoder
/// panics: token lists that trip the serializer's own assertions (a
/// fixed-width string or byte value over 32 bytes, or an empty dynamic
/// string or byte value), and signatures without a single identifier
/// character, on which the argument counter counts zero substrings and
/// its subtraction of one underflows.
#[verifier::external_body]
pub(crate) fn encode_call_bytes(sig: &str, tokens: &[clarity::abi::AbiToken]) -> (r: Result<
    Vec<u8>,
    Web3Error,
>)
    requires
        sig_encodable(sig@),
        tokens_encodable(tokens@),
    ensures
        r is Ok ==> tokens_encodable(tokens@),
        r is Ok <==> abi_encoding_of(sig@, tokens@) is Some,
        r is Ok ==> r->Ok_0@ == abi_encoding_of(sig@, tokens@)->Some_0,
        r is Ok ==> sig_well_formed(sig@),
        !sig_well_formed(sig@) ==> r is Err,
        r is Ok ==> r->Ok_0@.len() >= 4 && r->Ok_0@.subrange(0, 4) == sig_hash_of(
            sig@,
        ).subrange(0, 4),
        r is Err ==> r->Err_0 == Web3Error::SignatureError,
{
    match clarity::abi::encode_call(sig, tokens) {
        Ok(v) => Ok(v),
        Err(_) => Err(Web3Error::SignatureError),
    }
}

/// What signing a legacy transaction with the given fields, key and chain
/// identifier produces, as raw RLP bytes. Named rather than written out:
/// the RLP encoding and the deterministic ECDSA signature are functions of
/// exactly these arguments.
pub uninterp spec fn signed_tx_of(
    to: Seq<u8>,
    nonce: Seq<u8>,
    gas_price: Seq<u8>,
    gas_limit: Seq<u8>,
    value: Seq<u8>,
    data: Seq<u8>,
    key: Seq<u8>,
    chain_id: u64,
) -> Seq<u8>;

/// Whether the signer accepts 32 bytes as a secp256k1 private key.
pub uninterp spec fn key_valid(key: Seq<u8>) -> bool;

/// Relies on clarity::PrivateKey::from_bytes, which accepts exactly the
/// byte strings that form a valid key, and on clarity::Transaction::sign
/// and to_bytes: deterministic RLP encoding of the legacy transaction
/// signed over the given chain identifier.
#[verifier::external_body]
pub(crate) fn sign_tx_bytes(
    to: &Address,
    nonce: &crate::types::Uint256,
    gas_price: &crate::types::Uint256,
    gas_limit: &crate::types::Uint256,
    value: &crate::types::Uint256,
    data: &Vec<u8>,
    key: &[u8; 32],
    chain_id: u64,
) -> (r: Result<Vec<u8>, Web3Error>)
    requires
        to.wf(),
        nonce.wf(),
        gas_price.wf(),
        gas_limit.wf(),
        value.wf(),
        1 <= chain_id < 9223372036854775790u64,
    ensures
        r is Ok <==> key_valid(key@),
        r is Ok ==> r->Ok_0@ == signed_tx_of(
            to@,
            nonce@,
            gas_price@,
            gas_limit@,
            value@,
            data@,
            key@,
            chain_id,
        ),
        r is Err ==> r->Err_0 == Web3Error::InvalidKey,
{
    let k = match clarity::PrivateKey::from_bytes(*key) {
        Ok(k) => k,
        Err(_) => return Err(Web3Error::InvalidKey),
    };
    let tx = clarity::Transaction::Legacy {
        nonce: clarity::Uint256::from_be_bytes(&nonce.bytes),
        gas_price: clarity::Uint256::from_be_bytes(&gas_price.bytes),
        gas_limit: clarity::Uint256::from_be_bytes(&gas_limit.bytes),
        to: clarity::Address::from_slice(&to.bytes).unwrap(),
        value: clarity::Uint256::from_be_bytes(&value.bytes),
        data: data.clone(),
        signature: None,
    };
    Ok(tx.sign(&k, Some(chain_id)).to_bytes())
}

} // verus!

use vstd::prelude::*;

use crate::abi::{abi_encoding_of, encode_call_bytes, key_valid, sig_encodable, sig_hash_of,
    sig_well_formed, sign_tx_bytes, signed_tx_of, tokens_encodable};
use crate::errors::Web3Error;
use crate::hex::{be_nat, data_chars, quantity_chars};
use crate::types::{Address, TransactionRequest, TransactionResponse, Uint256};

verus! {

/// The fixed gas ceiling given to every submitted transaction: a
/// conservative constant, not derived from simulation.
pub const GAS_LIMIT: u64 = 6721975;

/// The 32-byte big-endian form of the gas ceiling.
pub open spec fn gas_limit_bytes() -> Seq<u8> {
    Seq::new(29, |i: int| 0u8) + seq![0x66u8, 0x91u8, 0xb7u8]
}

pub proof fn lemma_gas_limit_value()
    ensures
        be_nat(gas_limit_bytes()) == GAS_LIMIT,
{
    let t0 = Seq::<u8>::empty();
    let t1 = seq![0x66u8];
    let t2 = seq![0x66u8, 0x91u8];
    let tail = seq![0x66u8, 0x91u8, 0xb7u8];
    let zeros = Seq::new(29, |i: int| 0u8);
    assert(be_nat(t0) == 0);
    assert(t1.drop_last() =~= t0);
    assert(be_nat(t1) == 0x66);
    assert(t2.drop_last() =~= t1);
    assert(be_nat(t2) == 0x66 * 256 + 0x91);
    assert(tail.drop_last() =~= t2);
    assert(be_nat(tail) == (0x66 * 256 + 0x91) * 256 + 0xb7);
    crate::hex::lemma_be_nat_zero_prefix(zeros, tail);
}

/// The gas ceiling as a wire value.
pub fn gas_limit_value() -> (r: Uint256)
    ensures
        r.wf(),
        r@ == gas_limit_bytes(),
        r.as_nat() == GAS_LIMIT,
{
    let mut b: Vec<u8> = Vec::new();
    b.push(0x66);
    b.push(0x91);
    b.push(0xb7);
    proof {
        assert(b@ =~= seq![0x66u8, 0x91u8, 0xb7u8]);
    }
    let r = match Uint256::from_bytes_be(&b) {
        Ok(v) => v,
        Err(_) => Uint256::zero(),
    };
    proof {
        assert(r@ =~= gas_limit_bytes());
        lemma_gas_limit_value();
    }
    r
}

/// Assembles and signs a state-changing transaction from the chain state
/// read moments before: the fetched nonce and gas price enter the signed
/// bytes untouched, the gas limit is the fixed ceiling, and the signature
/// binds the explicit chain identifier. Fails only for a rejected private
/// key.
pub fn prepare_transaction(
    to: &Address,
    data: &Vec<u8>,
    value: &Uint256,
    nonce: &Uint256,
    gas_price: &Uint256,
    key: &[u8; 32],
    chain_id: u64,
) -> (r: Result<Vec<u8>, Web3Error>)
    requires
        to.wf(),
        value.wf(),
        nonce.wf(),
        gas_price.wf(),
        1 <= chain_id < 9223372036854775790u64,
    ensures
        r is Ok <==> key_valid(key@),
        r is Ok ==> r->Ok_0@ == signed_tx_of(
            to@,
            nonce@,
            gas_price@,
            gas_limit_bytes(),
            value@,
            data@,
            key@,
            chain_id,
        ),
        r is Err ==> r->Err_0 == Web3Error::InvalidKey,
{
    let gas_limit = gas_limit_value();
    sign_tx_bytes(to, nonce, gas_price, &gas_limit, value, data, key, chain_id)
}

/// Signing is deterministic: the same transaction fields, key and chain
/// identifier always produce the same raw bytes, in every run.
pub proof fn lemma_signing_deterministic(
    to: Seq<u8>,
    nonce: Seq<u8>,
    gas_price: Seq<u8>,
    gas_limit: Seq<u8>,
    value: Seq<u8>,
    data: Seq<u8>,
    key: Seq<u8>,
    chain_id: u64,
)
    ensures
        signed_tx_of(to, nonce, gas_price, gas_limit, value, data, key, chain_id) == signed_tx_of(
            to,
            nonce,
            gas_price,
            gas_limit,
            value,
            data,
            key,
            chain_id,
        ),
{
}

/// Builds the read-only call request of a contract call: the caller's own
/// address as sender, the contract as recipient, the fetched nonce and gas
/// price (kept for request-shape symmetry), zero value, and exactly the
/// ABI encoding of the call, whose first four bytes are the signature
/// hash's method selector. Succeeds precisely where the encoder accepts
/// the signature and the argument count; fails with `SignatureError`.
pub fn contract_call_request(
    contract: &Address,
    sig: &str,
    tokens: &[clarity::abi::AbiToken],
    own: &Address,
    nonce: &Uint256,
    gas_price: &Uint256,
) -> (r: Result<TransactionRequest, Web3Error>)
    requires
        sig_encodable(sig@),
        tokens_encodable(tokens@),
    ensures
        r is Ok <==> abi_encoding_of(sig@, tokens@) is Some,
        !sig_well_formed(sig@) ==> r is Err,
        r is Err ==> r->Err_0 == Web3Error::SignatureError,
        r is Ok ==> {
            let t = r->Ok_0;
            &&& t.from@ == own@
            &&& t.to matches Some(a) && a@ == contract@
            &&& t.nonce matches Some(n) && n@ == nonce@
            &&& t.gas is None
            &&& t.gas_price matches Some(g) && g@ == gas_price@
            &&& t.value matches Some(v) && v.as_nat() == 0
            &&& t.data matches Some(d) && d@ == abi_encoding_of(sig@, tokens@)->Some_0 && d@.len()
                >= 4 && d@.subrange(0, 4) == sig_hash_of(sig@).subrange(0, 4)
        },
{
    let payload = match encode_call_bytes(sig, tokens) {
        Ok(p) => p,
        Err(e) => {
            return Err(e);
        },
    };
    Ok(
        TransactionRequest {
            from: own.clone(),
            to: Some(contract.clone()),
            nonce: Some(nonce.clone()),
            gas: None,
            gas_price: Some(gas_price.clone()),
            value: Some(Uint256::zero()),
            data: Some(payload),
        },
    )
}

/// Decodes the single-word return value of a read-only call as a
/// big-endian unsigned integer. The payload must be exactly one 32-byte
/// word; anything else is a `DecodeError`.
pub fn decode_call_result(bytes: &Vec<u8>) -> (r: Result<Uint256, Web3Error>)
    ensures
        r is Ok <==> bytes@.len() == 32,
        r is Ok ==> r->Ok_0@ == bytes@ && r->Ok_0.as_nat() == be_nat(bytes@),
        r is Err ==> r->Err_0 matches Web3Error::DecodeError(_),
{
    if bytes.len() != 32 {
        return Err(Web3Error::DecodeError("call result is not one 32-byte word".to_owned()));
    }
    match Uint256::from_bytes_be(bytes) {
        Ok(v) => {
            proof {
                assert(v@ =~= bytes@);
            }
            Ok(v)
        },
        Err(_) => Err(Web3Error::DecodeError("call result is not one 32-byte word".to_owned())),
    }
}

/// The wire parameter of a hash-keyed lookup: the hash in fixed-width
/// padded form, never stripped of leading zeros.
pub fn transaction_hash_param(hash: &Uint256) -> (r: String)
    ensures
        r@ == data_chars(hash@),
{
    hash.to_padded_hex()
}

/// The wire parameter of a filter-handle call: the handle in quantity
/// form, with no leading zeros.
pub fn filter_id_param(id: &Uint256) -> (r: String)
    ensures
        r@ == quantity_chars(id@),
{
    id.to_quantity_hex()
}

/// What the confirmation waiter decides after one lookup.
#[derive(Debug, PartialEq, Eq)]
pub enum TxPoll {
    Found(TransactionResponse),
    KeepWaiting,
}

/// One round of the confirmation waiter: a present record ends the wait,
/// an absent one means sleep a second and look again, indefinitely.
pub fn transaction_poll_step(resp: Option<TransactionResponse>) -> (r: TxPoll)
    ensures
        resp is Some ==> r == TxPoll::Found(resp->Some_0),
        resp is None ==> r == TxPoll::KeepWaiting,
{
    match resp {
        Some(t) => TxPoll::Found(t),
        None => TxPoll::KeepWaiting,
    }
}

} // verus!

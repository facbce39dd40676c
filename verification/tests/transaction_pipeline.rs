use web3_core::errors::Web3Error;
use web3_core::transactions::{
    decode_call_result, filter_id_param, gas_limit_value, prepare_transaction,
    transaction_hash_param, transaction_poll_step, contract_call_request, TxPoll, GAS_LIMIT,
};
use web3_core::types::{Address, TransactionResponse, Uint256};

fn addr(fill: u8) -> Address {
    Address::from_bytes(vec![fill; 20]).unwrap()
}

fn u256(bytes: &[u8]) -> Uint256 {
    Uint256::from_bytes_be(&bytes.to_vec()).unwrap()
}

#[test]
fn gas_limit_matches_constant() {
    let g = gas_limit_value();
    assert_eq!(g.to_quantity_hex(), format!("{:#x}", GAS_LIMIT));
    assert_eq!(g.to_quantity_hex(), "0x6691b7");
}

#[test]
fn decode_rejects_wrong_width() {
    let r = decode_call_result(&vec![0u8; 31]);
    assert!(matches!(r.unwrap_err(), Web3Error::DecodeError(_)));
    let r = decode_call_result(&vec![0u8; 33]);
    assert!(matches!(r.unwrap_err(), Web3Error::DecodeError(_)));
}

#[test]
fn decode_reads_big_endian_word() {
    let mut word = vec![0u8; 32];
    word[31] = 0x01;
    let v = decode_call_result(&word).unwrap();
    assert_eq!(v, u256(&[0x01]));
    assert_eq!(v.to_quantity_hex(), "0x1");
}

#[test]
fn prepared_transaction_encodes_fetched_state() {
    // The signed bytes must equal a transaction built directly from the
    // same gas price, nonce and chain id.
    let key_bytes = [0x11u8; 32];
    let to = addr(0x42);
    let data = vec![1, 2, 3];
    let value = u256(&[0x0a]);
    let nonce = u256(&[0x2a]);
    let gas_price = u256(&[0x07]);
    let ours = prepare_transaction(&to, &data, &value, &nonce, &gas_price, &key_bytes, 1).unwrap();

    let theirs = clarity::Transaction::Legacy {
        nonce: clarity::Uint256::from_be_bytes(&[0x2a]),
        gas_price: clarity::Uint256::from_be_bytes(&[0x07]),
        gas_limit: clarity::Uint256::from_be_bytes(&[0x66, 0x91, 0xb7]),
        to: clarity::Address::from_slice(&[0x42; 20]).unwrap(),
        value: clarity::Uint256::from_be_bytes(&[0x0a]),
        data: vec![1, 2, 3],
        signature: None,
    }
    .sign(&clarity::PrivateKey::from_bytes(key_bytes).unwrap(), Some(1))
    .to_bytes();
    assert_eq!(ours, theirs);
}

#[test]
fn signing_is_deterministic_and_chain_bound() {
    let key_bytes = [0x13u8; 32];
    let to = addr(0x21);
    let data = vec![9];
    let value = u256(&[0x01]);
    let nonce = u256(&[0x05]);
    let gas_price = u256(&[0x03]);
    let a = prepare_transaction(&to, &data, &value, &nonce, &gas_price, &key_bytes, 1).unwrap();
    let b = prepare_transaction(&to, &data, &value, &nonce, &gas_price, &key_bytes, 1).unwrap();
    assert_eq!(a, b);
    // The same contents signed for another chain give different bytes.
    let c = prepare_transaction(&to, &data, &value, &nonce, &gas_price, &key_bytes, 2).unwrap();
    assert_ne!(a, c);
    // A different nonce or gas price changes the bytes too.
    let d =
        prepare_transaction(&to, &data, &value, &u256(&[0x06]), &gas_price, &key_bytes, 1).unwrap();
    assert_ne!(a, d);
    let e =
        prepare_transaction(&to, &data, &value, &nonce, &u256(&[0x04]), &key_bytes, 1).unwrap();
    assert_ne!(a, e);
}

#[test]
fn invalid_key_is_rejected() {
    let r = prepare_transaction(
        &addr(1),
        &vec![],
        &Uint256::zero(),
        &Uint256::zero(),
        &Uint256::zero(),
        &[0u8; 32],
        1,
    );
    assert_eq!(r.unwrap_err(), Web3Error::InvalidKey);
}

#[test]
fn contract_call_request_shape() {
    let tokens = vec![clarity::abi::AbiToken::Address(
        clarity::Address::from_slice(&[0x33; 20]).unwrap(),
    )];
    let req = contract_call_request(
        &addr(0x55),
        "balanceOf(address)",
        &tokens,
        &addr(0x66),
        &u256(&[0x02]),
        &u256(&[0x09]),
    )
    .unwrap();
    assert_eq!(req.from, addr(0x66));
    assert_eq!(req.to, Some(addr(0x55)));
    assert_eq!(req.nonce, Some(u256(&[0x02])));
    assert!(req.gas.is_none());
    assert_eq!(req.gas_price, Some(u256(&[0x09])));
    assert_eq!(req.value, Some(Uint256::zero()));
    let data = req.data.unwrap();
    let selector = web3_core::abi::event_topic("balanceOf(address)").unwrap();
    assert_eq!(&data[..4], &selector[..4]);
    assert_eq!(data.len(), 36);
}

#[test]
fn contract_call_request_rejects_bad_signature() {
    let r = contract_call_request(
        &addr(1),
        "no parens here",
        &[],
        &addr(2),
        &Uint256::zero(),
        &Uint256::zero(),
    );
    assert_eq!(r.unwrap_err(), Web3Error::SignatureError);
}

#[test]
fn contract_call_request_rejects_arity_mismatch() {
    let r = contract_call_request(
        &addr(1),
        "balanceOf(address)",
        &[],
        &addr(2),
        &Uint256::zero(),
        &Uint256::zero(),
    );
    assert_eq!(r.unwrap_err(), Web3Error::SignatureError);
}

#[test]
fn hash_params_keep_full_width() {
    let hash = u256(&[0xab]);
    let padded = transaction_hash_param(&hash);
    assert_eq!(padded.len(), 66);
    assert!(padded.ends_with("ab"));
    assert!(padded.starts_with("0x00"));
    assert_eq!(filter_id_param(&hash), "0xab");
}

#[test]
fn confirmation_waiter_decisions() {
    assert_eq!(transaction_poll_step(None), TxPoll::KeepWaiting);
    let resp = TransactionResponse {
        hash: u256(&[0x01]),
        nonce: u256(&[0x02]),
        block_number: None,
    };
    let expected = TransactionResponse {
        hash: u256(&[0x01]),
        nonce: u256(&[0x02]),
        block_number: None,
    };
    assert_eq!(transaction_poll_step(Some(resp)), TxPoll::Found(expected));
}

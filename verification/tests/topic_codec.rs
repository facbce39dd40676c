use web3_core::abi::{address_to_event, event_topic, topic_to_address};
use web3_core::errors::Web3Error;
use web3_core::hex::{bytes_to_data, bytes_to_hex_str};
use web3_core::types::{Address, Uint256};

fn hex_to_bytes(s: &str) -> Vec<u8> {
    (0..s.len())
        .step_by(2)
        .map(|i| u8::from_str_radix(&s[i..i + 2], 16).unwrap())
        .collect()
}

#[test]
fn event_topic_known_value() {
    let topic = event_topic("Transfer(address,address,uint256)").unwrap();
    assert_eq!(
        topic,
        hex_to_bytes("ddf252ad1be2c89b69c2b068fc378daa952ba7f163c4a11628f55a4df523b3ef")
    );
}

#[test]
fn event_topic_deterministic() {
    let a = event_topic("Transfer(address,address,uint256)").unwrap();
    let b = event_topic("Transfer(address,address,uint256)").unwrap();
    assert_eq!(a, b);
}

#[test]
fn event_topic_distinct_signatures_distinct_topics() {
    let transfer = event_topic("Transfer(address,address,uint256)").unwrap();
    let approval = event_topic("Approval(address,address,uint256)").unwrap();
    let transfer_single = event_topic("TransferSingle(address,address,address,uint256,uint256)")
        .unwrap();
    assert_ne!(transfer, approval);
    assert_ne!(transfer, transfer_single);
    assert_ne!(approval, transfer_single);
}

#[test]
fn event_topic_rejects_space() {
    assert_eq!(
        event_topic("Transfer (address)").unwrap_err(),
        Web3Error::SignatureError
    );
}

#[test]
fn event_topic_rejects_missing_parens() {
    assert_eq!(event_topic("Transfer").unwrap_err(), Web3Error::SignatureError);
}

#[test]
fn address_topic_zero_pads() {
    let bytes: Vec<u8> = (1u8..=20).collect();
    let addr = Address::from_bytes(bytes.clone()).unwrap();
    let topic = address_to_event(addr);
    assert_eq!(topic.len(), 32);
    assert_eq!(&topic[..12], &[0u8; 12]);
    assert_eq!(&topic[12..], &bytes[..]);
}

#[test]
fn address_topic_round_trips() {
    let bytes: Vec<u8> = (100u8..120).collect();
    let addr = Address::from_bytes(bytes.clone()).unwrap();
    let topic = address_to_event(addr);
    let back = topic_to_address(&topic).unwrap();
    assert_eq!(back.bytes, bytes);
}

#[test]
fn hex_rendering() {
    assert_eq!(bytes_to_hex_str(&vec![0x00, 0xff, 0x1a]), "00ff1a");
    assert_eq!(bytes_to_data(&vec![0x00, 0xff, 0x1a]), "0x00ff1a");
    assert_eq!(bytes_to_hex_str(&vec![]), "");
}

#[test]
fn quantity_hex_strips_leading_zeros() {
    let v = Uint256::from_bytes_be(&vec![0xff]).unwrap();
    assert_eq!(v.to_quantity_hex(), "0xff");
    let v = Uint256::from_bytes_be(&vec![0x01, 0x00]).unwrap();
    assert_eq!(v.to_quantity_hex(), "0x100");
    let v = Uint256::from_bytes_be(&vec![0x0f]).unwrap();
    assert_eq!(v.to_quantity_hex(), "0xf");
    let v = Uint256::zero();
    assert_eq!(v.to_quantity_hex(), "0x0");
}

#[test]
fn padded_hex_keeps_full_width() {
    let v = Uint256::from_bytes_be(&vec![0xff]).unwrap();
    let padded = v.to_padded_hex();
    assert_eq!(padded.len(), 66);
    assert_eq!(
        padded,
        "0x00000000000000000000000000000000000000000000000000000000000000ff"
    );
}

#[test]
fn full_width_value_round_trips_both_forms() {
    let v = Uint256::from_bytes_be(&vec![0xffu8; 32]).unwrap();
    assert_eq!(v.to_quantity_hex(), format!("0x{}", "ff".repeat(32)));
    assert_eq!(v.to_padded_hex(), format!("0x{}", "ff".repeat(32)));
}

#[test]
fn uint256_rejects_long_input() {
    assert!(Uint256::from_bytes_be(&vec![1u8; 33]).is_err());
    assert!(Uint256::from_bytes_be(&vec![1u8; 32]).is_ok());
}

#[test]
fn address_requires_twenty_bytes() {
    assert!(Address::from_bytes(vec![0u8; 19]).is_err());
    assert!(Address::from_bytes(vec![0u8; 21]).is_err());
    assert!(Address::from_bytes(vec![0u8; 20]).is_ok());
}

#[test]
fn client_holds_configuration() {
    let w = web3_core::client::Web3::new("http://localhost:8545");
    assert_eq!(w.url(), "http://localhost:8545");
    assert_eq!(w.chain_id, 1);
    let w = web3_core::client::Web3::with_chain_id("http://localhost:8545", 42);
    assert_eq!(w.chain_id, 42);
}

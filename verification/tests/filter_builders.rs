use web3_core::errors::Web3Error;
use web3_core::filters::{
    build_arbitrary_range_filter, build_event_filter, build_events_range_filter,
    build_single_event_filter, resolve_end_block,
};
use web3_core::types::{Address, Uint256};

const TRANSFER_TOPIC: &str =
    "0xddf252ad1be2c89b69c2b068fc378daa952ba7f163c4a11628f55a4df523b3ef";

fn addr(fill: u8) -> Address {
    Address::from_bytes(vec![fill; 20]).unwrap()
}

#[test]
fn event_filter_shape() {
    let addresses = vec![addr(0x11)];
    let topics = vec![vec![vec![0xAA; 32], vec![0xBB; 32]]];
    let f = build_event_filter(&addresses, "Transfer(address,address,uint256)", &topics).unwrap();
    assert_eq!(f.address, vec![format!("0x{}", "11".repeat(20))]);
    assert!(f.from_block.is_none());
    assert!(f.to_block.is_none());
    let list = f.topics.unwrap();
    assert_eq!(list.len(), 2);
    assert_eq!(list[0], Some(vec![Some(TRANSFER_TOPIC.to_string())]));
    let group = list[1].as_ref().unwrap();
    assert_eq!(
        group,
        &vec![
            Some(format!("0x{}", "aa".repeat(32))),
            Some(format!("0x{}", "bb".repeat(32))),
        ]
    );
}

#[test]
fn event_filter_rejects_bad_signature() {
    let r = build_event_filter(&vec![addr(1)], "nope", &vec![]);
    assert_eq!(r.unwrap_err(), Web3Error::SignatureError);
}

#[test]
fn single_event_filter_keeps_wildcards() {
    let f = build_single_event_filter(
        &addr(0x22),
        "Transfer(address,address,uint256)",
        &Some(vec![vec![0xCC; 32]]),
        &None,
    )
    .unwrap();
    let list = f.topics.unwrap();
    assert_eq!(list.len(), 3);
    assert_eq!(list[0], Some(vec![Some(TRANSFER_TOPIC.to_string())]));
    assert_eq!(list[1], Some(vec![Some(format!("0x{}", "cc".repeat(32)))]));
    assert_eq!(list[2], None);
}

#[test]
fn range_filter_resolves_end_once() {
    // With an explicit end bound, the reported finalized height is ignored:
    // two different heights give the same filter.
    let start = Uint256::from_bytes_be(&vec![0x05]).unwrap();
    let end = Uint256::from_bytes_be(&vec![0x10]).unwrap();
    let latest1 = Uint256::from_bytes_be(&vec![0x20]).unwrap();
    let latest2 = Uint256::from_bytes_be(&vec![0x30]).unwrap();
    let events = vec!["Transfer(address,address,uint256)".to_string()];
    let resolved1 = resolve_end_block(&Some(end.clone()), &latest1);
    let resolved2 = resolve_end_block(&Some(end.clone()), &latest2);
    let f1 = build_events_range_filter(&start, &resolved1, &vec![addr(1)], &events).unwrap();
    let f2 = build_events_range_filter(&start, &resolved2, &vec![addr(1)], &events).unwrap();
    assert_eq!(f1, f2);
    assert_eq!(f1.from_block.as_deref(), Some("0x5"));
    assert_eq!(f1.to_block.as_deref(), Some("0x10"));
}

#[test]
fn range_filter_defaults_to_finalized_height() {
    let start = Uint256::zero();
    let latest = Uint256::from_bytes_be(&vec![0x01, 0x00]).unwrap();
    let resolved = resolve_end_block(&None, &latest);
    let events = vec!["Transfer(address,address,uint256)".to_string()];
    let f = build_events_range_filter(&start, &resolved, &vec![addr(9)], &events).unwrap();
    assert_eq!(f.from_block.as_deref(), Some("0x0"));
    assert_eq!(f.to_block.as_deref(), Some("0x100"));
}

#[test]
fn range_filter_groups_signatures_at_topic_zero() {
    // All requested event kinds are alternatives within the single
    // position-0 group (logical OR), unlike the event-wait filter's AND
    // across positions.
    let start = Uint256::zero();
    let end = Uint256::from_bytes_be(&vec![0x10]).unwrap();
    let events = vec![
        "Transfer(address,address,uint256)".to_string(),
        "Approval(address,address,uint256)".to_string(),
    ];
    let f = build_events_range_filter(&start, &end, &vec![addr(1)], &events).unwrap();
    let list = f.topics.unwrap();
    assert_eq!(list.len(), 1);
    let approval_hex = web3_core::hex::bytes_to_data(
        &web3_core::abi::event_topic("Approval(address,address,uint256)").unwrap(),
    );
    assert_eq!(
        list[0],
        Some(vec![Some(TRANSFER_TOPIC.to_string()), Some(approval_hex)])
    );
}

#[test]
fn range_filter_rejects_any_bad_signature() {
    let start = Uint256::zero();
    let end = Uint256::zero();
    let events = vec![
        "Transfer(address,address,uint256)".to_string(),
        "broken signature".to_string(),
    ];
    let r = build_events_range_filter(&start, &end, &vec![addr(1)], &events);
    assert_eq!(r.unwrap_err(), Web3Error::SignatureError);
}

#[test]
fn arbitrary_range_filter_shape() {
    let start = Uint256::from_bytes_be(&vec![0x02]).unwrap();
    let end = Uint256::from_bytes_be(&vec![0x03]).unwrap();
    let topics = vec![vec![vec![0xDD; 32]], vec![vec![0xEE; 32], vec![0xFF; 32]]];
    let f = build_arbitrary_range_filter(&start, &end, &vec![addr(4)], &topics);
    assert_eq!(f.from_block.as_deref(), Some("0x2"));
    assert_eq!(f.to_block.as_deref(), Some("0x3"));
    let list = f.topics.unwrap();
    assert_eq!(list.len(), 2);
    assert_eq!(list[0], Some(vec![Some(format!("0x{}", "dd".repeat(32)))]));
    assert_eq!(
        list[1],
        Some(vec![
            Some(format!("0x{}", "ee".repeat(32))),
            Some(format!("0x{}", "ff".repeat(32))),
        ])
    );
}

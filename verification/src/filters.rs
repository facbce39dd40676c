use vstd::prelude::*;

use crate::abi::{event_topic, sig_hash_of, sig_well_formed};
use crate::errors::Web3Error;
use crate::hex::{bytes_to_data, data_chars, quantity_chars};
use crate::types::{Address, NewFilter, Uint256};

verus! {

/// The ghost shape of a built filter's topic list.
pub open spec fn topics_view(topics: Option<Vec<Option<Vec<Option<String>>>>>) -> Option<
    Seq<Option<Seq<Option<Seq<char>>>>>,
> {
    match topics {
        None => None,
        Some(v) => Some(
            v@.map_values(
                |g: Option<Vec<Option<String>>>|
                    match g {
                        None => None,
                        Some(items) => Some(
                            items@.map_values(
                                |s: Option<String>|
                                    match s {
                                        None => None,
                                        Some(x) => Some(x@),
                                    },
                            ),
                        ),
                    },
            ),
        ),
    }
}

/// The wire form of an address list.
pub open spec fn addresses_view(address: Vec<String>) -> Seq<Seq<char>> {
    address@.map_values(|s: String| s@)
}

/// Hex-encodes a list of contract addresses for a filter.
pub fn encode_addresses(addresses: &Vec<Address>) -> (r: Vec<String>)
    ensures
        addresses_view(r) == addresses@.map_values(|a: Address| data_chars(a@)),
{
    let mut r: Vec<String> = Vec::new();
    let mut i: usize = 0;
    while i < addresses.len()
        invariant
            i <= addresses@.len(),
            r@.len() == i,
            forall|j: int| 0 <= j < i ==> r@[j]@ == data_chars(addresses@[j]@),
        decreases addresses@.len() - i,
    {
        r.push(addresses[i].to_wire());
        i = i + 1;
    }
    proof {
        assert(addresses_view(r) =~= addresses@.map_values(|a: Address| data_chars(a@)));
    }
    r
}

/// Hex-encodes one topic group: every value becomes a `0x`-prefixed
/// fixed-width hex string.
pub fn encode_group(group: &Vec<Vec<u8>>) -> (r: Vec<Option<String>>)
    ensures
        r@.len() == group@.len(),
        forall|j: int|
            0 <= j < group@.len() ==> (#[trigger] r@[j] matches Some(s) && s@ == data_chars(group@[j]@)),
{
    let mut r: Vec<Option<String>> = Vec::new();
    let mut i: usize = 0;
    while i < group.len()
        invariant
            i <= group@.len(),
            r@.len() == i,
            forall|j: int|
            0 <= j < i ==> (#[trigger] r@[j] matches Some(s) && s@ == data_chars(group@[j]@)),
        decreases group@.len() - i,
    {
        r.push(Some(bytes_to_data(&group[i])));
        i = i + 1;
    }
    r
}

/// The ghost contents of the topic list built for an event wait: the
/// signature hash in position 0, then one provided group per following
/// position, every value hex-encoded.
pub open spec fn event_topics_ok(
    r: Option<Seq<Option<Seq<Option<Seq<char>>>>>>,
    sig: Seq<char>,
    topics: Seq<Seq<Seq<u8>>>,
) -> bool {
    &&& r matches Some(list)
    &&& list.len() == 1 + topics.len()
    &&& list[0] matches Some(g0) && g0.len() == 1 && g0[0] == Some(data_chars(sig_hash_of(sig)))
    &&& forall|i: int|
        0 <= i < topics.len() ==> (#[trigger] list[i + 1] matches Some(g) && g.len()
            == topics[i].len() && (forall|j: int|
            0 <= j < topics[i].len() ==> g[j] == Some(data_chars(topics[i][j]))))
}

/// Builds the filter for an event wait: the given contract addresses, an
/// open block range, the event's signature hash as topic 0, and the
/// caller's topic groups in the following positions (AND across positions,
/// OR within one). Fails only for a malformed signature.
pub fn build_event_filter(addresses: &Vec<Address>, event: &str, topics: &Vec<Vec<Vec<u8>>>) -> (r:
    Result<NewFilter, Web3Error>)
    ensures
        r is Ok <==> sig_well_formed(event@),
        r is Err ==> r->Err_0 == Web3Error::SignatureError,
        r is Ok ==> {
            let f = r->Ok_0;
            &&& addresses_view(f.address) == addresses@.map_values(|a: Address| data_chars(a@))
            &&& f.from_block is None
            &&& f.to_block is None
            &&& event_topics_ok(
                topics_view(f.topics),
                event@,
                topics@.map_values(|g: Vec<Vec<u8>>| g@.map_values(|t: Vec<u8>| t@)),
            )
        },
{
    let sig = match event_topic(event) {
        Ok(s) => s,
        Err(e) => {
            return Err(e);
        },
    };
    let mut list: Vec<Option<Vec<Option<String>>>> = Vec::new();
    let mut head: Vec<Option<String>> = Vec::new();
    head.push(Some(bytes_to_data(&sig)));
    list.push(Some(head));
    let mut i: usize = 0;
    while i < topics.len()
        invariant
            i <= topics@.len(),
            list@.len() == 1 + i,
            list@[0] matches Some(g0) && g0@.len() == 1 && (g0@[0] matches Some(s0) && s0@
                == data_chars(sig_hash_of(event@))),
            forall|k: int|
                0 <= k < i ==> (#[trigger] list@[k + 1] matches Some(g) && g@.len()
                    == topics@[k]@.len() && (forall|j: int|
                    0 <= j < topics@[k]@.len() ==> (#[trigger] g@[j] matches Some(s) && s@
                        == data_chars(topics@[k]@[j]@)))),
        decreases topics@.len() - i,
    {
        list.push(Some(encode_group(&topics[i])));
        i = i + 1;
    }
    let f = NewFilter {
        address: encode_addresses(addresses),
        from_block: None,
        to_block: None,
        topics: Some(list),
    };
    proof {
        let tv = topics_view(f.topics)->Some_0;
        let gv = topics@.map_values(|g: Vec<Vec<u8>>| g@.map_values(|t: Vec<u8>| t@));
        assert forall|k: int| 0 <= k < gv.len() implies (#[trigger] tv[k + 1] matches Some(g)
            && g.len() == gv[k].len() && (forall|j: int|
            0 <= j < gv[k].len() ==> g[j] == Some(data_chars(gv[k][j])))) by {
            assert(list@[k + 1] matches Some(lg) && lg@.len() == topics@[k]@.len());
        }
    }
    Ok(f)
}

/// Builds the filter of a one-shot presence check on a single contract:
/// the signature hash at topic 0, then two positions that are either a
/// wildcard (`None`) or a group of acceptable values.
pub fn build_single_event_filter(
    contract: &Address,
    event: &str,
    topic1: &Option<Vec<Vec<u8>>>,
    topic2: &Option<Vec<Vec<u8>>>,
) -> (r: Result<NewFilter, Web3Error>)
    ensures
        r is Ok <==> sig_well_formed(event@),
        r is Err ==> r->Err_0 == Web3Error::SignatureError,
        r is Ok ==> {
            let f = r->Ok_0;
            &&& addresses_view(f.address) == seq![data_chars(contract@)]
            &&& f.from_block is None
            &&& f.to_block is None
            &&& topics_view(f.topics) matches Some(list) && list.len() == 3 && (list[0]
                matches Some(g0) && g0.len() == 1 && g0[0] == Some(data_chars(sig_hash_of(event@))))
                && list[1] == encode_group_view(*topic1) && list[2] == encode_group_view(*topic2)
        },
{
    let sig = match event_topic(event) {
        Ok(s) => s,
        Err(e) => {
            return Err(e);
        },
    };
    let mut head: Vec<Option<String>> = Vec::new();
    head.push(Some(bytes_to_data(&sig)));
    let mut list: Vec<Option<Vec<Option<String>>>> = Vec::new();
    list.push(Some(head));
    list.push(encode_opt_group(topic1));
    list.push(encode_opt_group(topic2));
    let mut address: Vec<String> = Vec::new();
    address.push(contract.to_wire());
    let f = NewFilter { address, from_block: None, to_block: None, topics: Some(list) };
    proof {
        assert(addresses_view(f.address) =~= seq![data_chars(contract@)]);
    }
    Ok(f)
}

/// The wire form of an optional topic position: `None` is a wildcard, a
/// group is each value hex-encoded.
pub open spec fn encode_group_view(g: Option<Vec<Vec<u8>>>) -> Option<Seq<Option<Seq<char>>>> {
    match g {
        None => None,
        Some(items) => Some(items@.map_values(|t: Vec<u8>| Some(data_chars(t@)))),
    }
}

fn encode_opt_group(g: &Option<Vec<Vec<u8>>>) -> (r: Option<Vec<Option<String>>>)
    ensures
        (match r {
            None => None,
            Some(items) => Some(
                items@.map_values(
                    |s: Option<String>|
                        match s {
                            None => None,
                            Some(x) => Some(x@),
                        },
                ),
            ),
        }) == encode_group_view(*g),
{
    match g {
        None => None,
        Some(items) => {
            let enc = encode_group(items);
            proof {
                assert(enc@.map_values(
                    |s: Option<String>|
                        match s {
                            None => None,
                            Some(x) => Some(x@),
                        },
                ) =~= items@.map_values(|t: Vec<u8>| Some(data_chars(t@))));
            }
            Some(enc)
        },
    }
}

/// Resolves the end bound of a block range: an explicit bound stands, an
/// absent one is replaced by the node's current finalized height. Done
/// once, before a scan; the result is fixed for the whole call.
pub fn resolve_end_block(end_block: &Option<Uint256>, latest_finalized: &Uint256) -> (r: Uint256)
    ensures
        r@ == resolved_end(crate::types::view_opt(*end_block), latest_finalized@),
{
    match end_block {
        Some(e) => e.clone(),
        None => latest_finalized.clone(),
    }
}

/// What `resolve_end_block` returns, as a function of its inputs.
pub open spec fn resolved_end(end_block: Option<Seq<u8>>, latest_finalized: Seq<u8>) -> Seq<u8> {
    match end_block {
        Some(e) => e,
        None => latest_finalized,
    }
}

/// An explicit end bound makes the scan independent of the node's reported
/// finalized height: whatever height is read, the resolved bound is the
/// same, so the boundary is fixed for the whole call.
pub proof fn lemma_end_block_fixed(end: Option<Seq<u8>>, latest1: Seq<u8>, latest2: Seq<u8>)
    requires
        end is Some,
    ensures
        resolved_end(end, latest1) == resolved_end(end, latest2),
{
}

/// Builds the filter for a range scan over named events: all the
/// signature hashes stand as alternatives in the single topic-0 position
/// (logical OR across the requested event kinds) — unlike the event-wait
/// filter, whose positions are ANDed — with an explicit, already-resolved
/// block range in quantity hex form. Fails with `SignatureError` if any
/// signature is malformed.
pub fn build_events_range_filter(
    start_block: &Uint256,
    resolved_end: &Uint256,
    addresses: &Vec<Address>,
    events: &Vec<String>,
) -> (r: Result<NewFilter, Web3Error>)
    ensures
        r is Ok <==> (forall|i: int|
            0 <= i < events@.len() ==> sig_well_formed(#[trigger] events@[i]@)),
        r is Err ==> r->Err_0 == Web3Error::SignatureError,
        r is Ok ==> {
            let f = r->Ok_0;
            &&& addresses_view(f.address) == addresses@.map_values(|a: Address| data_chars(a@))
            &&& f.from_block matches Some(fb) && fb@ == quantity_chars(start_block@)
            &&& f.to_block matches Some(tb) && tb@ == quantity_chars(resolved_end@)
            &&& topics_view(f.topics) matches Some(list) && list.len() == 1 && (list[0]
                matches Some(g) && g.len() == events@.len() && (forall|i: int|
                0 <= i < events@.len() ==> g[i] == Some(data_chars(sig_hash_of(
                    #[trigger] events@[i]@,
                )))))
        },
{
    let mut group: Vec<Option<String>> = Vec::new();
    let mut i: usize = 0;
    while i < events.len()
        invariant
            i <= events@.len(),
            group@.len() == i,
            forall|k: int| 0 <= k < i ==> sig_well_formed(#[trigger] events@[k]@),
            forall|k: int|
                0 <= k < i ==> (#[trigger] group@[k] matches Some(s) && s@ == data_chars(
                    sig_hash_of(events@[k]@),
                )),
        decreases events@.len() - i,
    {
        let sig = match event_topic(events[i].as_str()) {
            Ok(s) => s,
            Err(e) => {
                return Err(e);
            },
        };
        group.push(Some(bytes_to_data(&sig)));
        i = i + 1;
    }
    let mut list: Vec<Option<Vec<Option<String>>>> = Vec::new();
    list.push(Some(group));
    Ok(
        NewFilter {
            address: encode_addresses(addresses),
            from_block: Some(start_block.to_quantity_hex()),
            to_block: Some(resolved_end.to_quantity_hex()),
            topics: Some(list),
        },
    )
}

/// Builds the filter for a range scan over raw topic groups: the caller's
/// groups stand at consecutive positions starting at topic 0, and the
/// block range is explicit and already resolved.
pub fn build_arbitrary_range_filter(
    start_block: &Uint256,
    resolved_end: &Uint256,
    addresses: &Vec<Address>,
    topics: &Vec<Vec<Vec<u8>>>,
) -> (r: NewFilter)
    ensures
        addresses_view(r.address) == addresses@.map_values(|a: Address| data_chars(a@)),
        r.from_block matches Some(fb) && fb@ == quantity_chars(start_block@),
        r.to_block matches Some(tb) && tb@ == quantity_chars(resolved_end@),
        topics_view(r.topics) matches Some(list) && list.len() == topics@.len() && (forall|i: int|
            0 <= i < topics@.len() ==> (#[trigger] list[i] matches Some(g) && g.len()
                == topics@[i]@.len() && (forall|j: int|
                0 <= j < topics@[i]@.len() ==> g[j] == Some(data_chars(topics@[i]@[j]@))))),
{
    let mut list: Vec<Option<Vec<Option<String>>>> = Vec::new();
    let mut i: usize = 0;
    while i < topics.len()
        invariant
            i <= topics@.len(),
            list@.len() == i,
            forall|k: int|
                0 <= k < i ==> (#[trigger] list@[k] matches Some(g) && g@.len()
                    == topics@[k]@.len() && (forall|j: int|
                    0 <= j < topics@[k]@.len() ==> (#[trigger] g@[j] matches Some(s) && s@
                        == data_chars(topics@[k]@[j]@)))),
        decreases topics@.len() - i,
    {
        list.push(Some(encode_group(&topics[i])));
        i = i + 1;
    }
    NewFilter {
        address: encode_addresses(addresses),
        from_block: Some(start_block.to_quantity_hex()),
        to_block: Some(resolved_end.to_quantity_hex()),
        topics: Some(list),
    }
}

} // verus!

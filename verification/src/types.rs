use vstd::prelude::*;

use crate::errors::Web3Error;
use crate::hex::{be_nat, bytes_to_data, bytes_to_quantity, data_chars, lemma_be_nat_zero_prefix,
    quantity_chars};

verus! {

/// A 20-byte account or contract address. The view is the byte sequence.
#[derive(Debug, PartialEq, Eq)]
pub struct Address {
    pub bytes: Vec<u8>,
}

impl View for Address {
    type V = Seq<u8>;

    open spec fn view(&self) -> Seq<u8> {
        self.bytes@
    }
}

/// A verified byte-for-byte copy of a vector.
pub fn clone_bytes(v: &Vec<u8>) -> (r: Vec<u8>)
    ensures
        r@ == v@,
{
    let mut r: Vec<u8> = Vec::new();
    let mut i: usize = 0;
    while i < v.len()
        invariant
            i <= v@.len(),
            r@ == v@.take(i as int),
        decreases v@.len() - i,
    {
        r.push(v[i]);
        i = i + 1;
        proof {
            assert(r@ =~= v@.take(i as int));
        }
    }
    proof {
        assert(v@.take(v@.len() as int) =~= v@);
    }
    r
}

impl Clone for Address {
    fn clone(&self) -> (r: Self)
        ensures
            r@ == self@,
    {
        Address { bytes: clone_bytes(&self.bytes) }
    }
}

impl Address {
    pub open spec fn wf(&self) -> bool {
        self@.len() == 20
    }

    /// Wraps exactly 20 bytes as an address; rejects any other length.
    pub fn from_bytes(bytes: Vec<u8>) -> (r: Result<Address, Web3Error>)
        ensures
            r is Ok <==> bytes@.len() == 20,
            r is Ok ==> r->Ok_0@ == bytes@ && r->Ok_0.wf(),
    {
        if bytes.len() == 20 {
            Ok(Address { bytes })
        } else {
            Err(Web3Error::DecodeError("address must be 20 bytes".to_owned()))
        }
    }

    /// The `0x`-prefixed fixed-width hex form used on the wire.
    pub fn to_wire(&self) -> (r: String)
        ensures
            r@ == data_chars(self@),
    {
        bytes_to_data(&self.bytes)
    }
}

/// An unsigned 256-bit integer held as 32 big-endian bytes. The view is the
/// byte sequence; `as_nat` gives the numeric value.
#[derive(Debug, PartialEq, Eq)]
pub struct Uint256 {
    pub bytes: Vec<u8>,
}

impl View for Uint256 {
    type V = Seq<u8>;

    open spec fn view(&self) -> Seq<u8> {
        self.bytes@
    }
}

impl Clone for Uint256 {
    fn clone(&self) -> (r: Self)
        ensures
            r@ == self@,
    {
        Uint256 { bytes: clone_bytes(&self.bytes) }
    }
}

impl Uint256 {
    pub open spec fn wf(&self) -> bool {
        self@.len() == 32
    }

    /// The numeric value of this integer.
    pub open spec fn as_nat(&self) -> nat {
        be_nat(self@)
    }

    /// Builds the integer from at most 32 big-endian bytes, left-padding
    /// with zeros; rejects longer inputs.
    pub fn from_bytes_be(b: &Vec<u8>) -> (r: Result<Uint256, Web3Error>)
        ensures
            r is Ok <==> b@.len() <= 32,
            r is Ok ==> {
                &&& r->Ok_0.wf()
                &&& r->Ok_0@ == Seq::new((32 - b@.len()) as nat, |i: int| 0u8) + b@
                &&& r->Ok_0.as_nat() == be_nat(b@)
            },
    {
        if b.len() > 32 {
            return Err(Web3Error::DecodeError("value longer than 32 bytes".to_owned()));
        }
        let mut bytes: Vec<u8> = Vec::new();
        let pad = 32 - b.len();
        let mut i: usize = 0;
        while i < pad
            invariant
                i <= pad,
                bytes@ == Seq::new(i as nat, |j: int| 0u8),
            decreases pad - i,
        {
            bytes.push(0u8);
            i = i + 1;
            proof {
                assert(bytes@ =~= Seq::new(i as nat, |j: int| 0u8));
            }
        }
        let mut j: usize = 0;
        while j < b.len()
            invariant
                j <= b@.len(),
                pad == 32 - b@.len(),
                bytes@ == Seq::new(pad as nat, |k: int| 0u8) + b@.take(j as int),
            decreases b@.len() - j,
        {
            bytes.push(b[j]);
            j = j + 1;
            proof {
                assert(bytes@ =~= Seq::new(pad as nat, |k: int| 0u8) + b@.take(j as int));
            }
        }
        proof {
            assert(b@.take(b@.len() as int) =~= b@);
            lemma_be_nat_zero_prefix(Seq::new(pad as nat, |k: int| 0u8), b@);
        }
        Ok(Uint256 { bytes })
    }

    /// The all-zero value.
    pub fn zero() -> (r: Uint256)
        ensures
            r.wf(),
            r.as_nat() == 0,
            r@ == Seq::new(32nat, |i: int| 0u8),
    {
        let empty: Vec<u8> = Vec::new();
        let r = match Uint256::from_bytes_be(&empty) {
            Ok(v) => v,
            Err(_) => Uint256 { bytes: Vec::new() },
        };
        proof {
            assert(r@ =~= Seq::new(32nat, |i: int| 0u8));
        }
        r
    }

    /// Quantity wire form: `0x`-prefixed hex with no leading zeros. Block
    /// numbers, filter handles and gas values travel in this form.
    pub fn to_quantity_hex(&self) -> (r: String)
        ensures
            r@ == quantity_chars(self@),
    {
        bytes_to_quantity(&self.bytes)
    }

    /// Hash wire form: `0x`-prefixed hex padded to the full 32 bytes.
    /// Transaction hashes travel in this form, never stripped of zeros.
    pub fn to_padded_hex(&self) -> (r: String)
        ensures
            r@ == data_chars(self@),
    {
        bytes_to_data(&self.bytes)
    }
}

/// An emitted event record, immutable once returned by the node.
#[derive(Debug, PartialEq, Eq)]
pub struct Log {
    pub address: Address,
    pub topics: Vec<Vec<u8>>,
    pub data: Vec<u8>,
    pub block_number: Option<Uint256>,
    pub transaction_hash: Option<Uint256>,
    pub log_index: Option<Uint256>,
}

impl Clone for Log {
    fn clone(&self) -> (r: Self)
        ensures
            r@ == self@,
    {
        let r = Log {
            address: self.address.clone(),
            topics: clone_topics(&self.topics),
            data: clone_bytes(&self.data),
            block_number: clone_opt_uint(&self.block_number),
            transaction_hash: clone_opt_uint(&self.transaction_hash),
            log_index: clone_opt_uint(&self.log_index),
        };
        r
    }
}

/// A verified copy of a list of topic values.
pub fn clone_topics(v: &Vec<Vec<u8>>) -> (r: Vec<Vec<u8>>)
    ensures
        r@.map_values(|t: Vec<u8>| t@) == v@.map_values(|t: Vec<u8>| t@),
{
    let mut r: Vec<Vec<u8>> = Vec::new();
    let mut i: usize = 0;
    while i < v.len()
        invariant
            i <= v@.len(),
            r@.len() == i,
            forall|j: int| 0 <= j < i ==> r@[j]@ == v@[j]@,
        decreases v@.len() - i,
    {
        r.push(clone_bytes(&v[i]));
        i = i + 1;
    }
    proof {
        assert(r@.map_values(|t: Vec<u8>| t@) =~= v@.map_values(|t: Vec<u8>| t@));
    }
    r
}

/// The ghost shape of a log: every field by value.
pub struct LogView {
    pub address: Seq<u8>,
    pub topics: Seq<Seq<u8>>,
    pub data: Seq<u8>,
    pub block_number: Option<Seq<u8>>,
    pub transaction_hash: Option<Seq<u8>>,
    pub log_index: Option<Seq<u8>>,
}

impl View for Log {
    type V = LogView;

    open spec fn view(&self) -> LogView {
        LogView {
            address: self.address@,
            topics: self.topics@.map_values(|t: Vec<u8>| t@),
            data: self.data@,
            block_number: view_opt(self.block_number),
            transaction_hash: view_opt(self.transaction_hash),
            log_index: view_opt(self.log_index),
        }
    }
}

pub open spec fn view_opt(o: Option<Uint256>) -> Option<Seq<u8>> {
    match o {
        Some(u) => Some(u@),
        None => None,
    }
}

fn clone_opt_uint(o: &Option<Uint256>) -> (r: Option<Uint256>)
    ensures
        view_opt(r) == view_opt(*o),
{
    match o {
        Some(u) => Some(u.clone()),
        None => None,
    }
}

/// The node's record of a submitted transaction, keyed by its hash.
#[derive(Debug, PartialEq, Eq)]
pub struct TransactionResponse {
    pub hash: Uint256,
    pub nonce: Uint256,
    pub block_number: Option<Uint256>,
}

impl Clone for TransactionResponse {
    fn clone(&self) -> (r: Self)
        ensures
            r.hash@ == self.hash@,
            r.nonce@ == self.nonce@,
            view_opt(r.block_number) == view_opt(self.block_number),
    {
        TransactionResponse {
            hash: self.hash.clone(),
            nonce: self.nonce.clone(),
            block_number: clone_opt_uint(&self.block_number),
        }
    }
}

/// A log-filter specification in wire form: addresses and topic values are
/// already hex-encoded, block bounds are quantity-form hex, and each topic
/// position is either a wildcard (`None`) or a list of alternatives.
#[derive(Debug, PartialEq, Eq, Clone)]
pub struct NewFilter {
    pub address: Vec<String>,
    pub from_block: Option<String>,
    pub to_block: Option<String>,
    pub topics: Option<Vec<Option<Vec<Option<String>>>>>,
}

impl Default for NewFilter {
    /// An empty filter: no addresses, open block range, no topics.
    fn default() -> (r: Self)
        ensures
            r.address@.len() == 0,
            r.from_block is None,
            r.to_block is None,
            r.topics is None,
    {
        NewFilter { address: Vec::new(), from_block: None, to_block: None, topics: None }
    }
}

/// A request for `eth_sendTransaction` or `eth_call`: typed fields, with
/// the optional ones absent where the node should fill them in.
#[derive(Debug, PartialEq, Eq)]
pub struct TransactionRequest {
    pub from: Address,
    pub to: Option<Address>,
    pub nonce: Option<Uint256>,
    pub gas: Option<Uint256>,
    pub gas_price: Option<Uint256>,
    pub value: Option<Uint256>,
    pub data: Option<Vec<u8>>,
}

} // verus!

use vstd::prelude::*;

verus! {

/// A handle on one JSON-RPC node: the configuration every operation of
/// the client shares. It holds no mutable state, so one instance can back
/// any number of concurrent waits.
pub struct Web3 {
    pub url: String,
    pub chain_id: u64,
}

impl Clone for Web3 {
    fn clone(&self) -> (r: Self)
        ensures
            r.url@ == self.url@,
            r.chain_id == self.chain_id,
    {
        Web3 { url: self.url.clone(), chain_id: self.chain_id }
    }
}

impl Web3 {
    /// A client for the node at `url`, signing for chain 1.
    pub fn new(url: &str) -> (r: Self)
        ensures
            r.url@ == url@,
            r.chain_id == 1,
    {
        Web3 { url: url.to_owned(), chain_id: 1 }
    }

    /// A client signing for an explicitly chosen chain: the chain
    /// identifier is config-bound, never inferred.
    pub fn with_chain_id(url: &str, chain_id: u64) -> (r: Self)
        ensures
            r.url@ == url@,
            r.chain_id == chain_id,
    {
        Web3 { url: url.to_owned(), chain_id }
    }

    pub fn url(&self) -> (r: &String)
        ensures
            r@ == self.url@,
    {
        &self.url
    }
}

} // verus!

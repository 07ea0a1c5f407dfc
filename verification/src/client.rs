use vstd::prelude::*;

verus! {

/// A handle on one node's JSON-RPC endpoint: it holds the base URL the
/// transport connects to and nothing else, so independent calls need no
/// coordination.
pub struct Client {
    base_url: String,
}

impl Client {
    /// The URL the client was constructed with.
    pub closed spec fn spec_base_url(&self) -> Seq<char> {
        self.base_url@
    }

    pub fn new(base_url: &str) -> (c: Self)
        ensures
            c.spec_base_url() == base_url@,
    {
        Client { base_url: base_url.to_owned() }
    }

    pub fn base_url(&self) -> (s: &str)
        ensures
            s@ == self.spec_base_url(),
    {
        self.base_url.as_str()
    }
}

} // verus!

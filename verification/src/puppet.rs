use vstd::prelude::*;

verus! {

/// A remote node known only by its address, to which calls are forwarded.
pub struct Puppet {
    address: String,
}

impl Puppet {
    /// The address the puppet forwards calls to.
    pub closed spec fn spec_address(&self) -> Seq<char> {
        self.address@
    }

    pub fn new(address: String) -> (r: Self)
        ensures
            r.spec_address() == address@,
    {
        Puppet { address }
    }

    /// The address the puppet forwards calls to.
    pub fn address(&self) -> (r: &String)
        ensures
            r@ == self.spec_address(),
    {
        &self.address
    }
}

} // verus!

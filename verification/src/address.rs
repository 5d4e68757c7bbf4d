use vstd::prelude::*;

verus! {

/// An account or contract address, held as its textual strkey
/// (for instance `G...` for an account and `C...` for a contract).
///
/// The escrow rules never look inside an address: they store it, hand it
/// back, and name it as the party of a transfer or of an authorisation.
#[derive(Debug, PartialEq, Eq)]
pub struct Address {
    pub strkey: String,
}

impl Address {
    /// Wraps a strkey.
    pub fn new(strkey: String) -> (a: Address)
        ensures
            a.strkey == strkey,
    {
        Address { strkey }
    }

    /// The strkey of the address.
    pub fn as_str(&self) -> (s: &str)
        ensures
            s@ == self.strkey@,
    {
        self.strkey.as_str()
    }
}

impl Clone for Address {
    fn clone(&self) -> (res: Self)
        ensures
            res == *self,
    {
        Address { strkey: self.strkey.clone() }
    }
}

} // verus!

use vstd::prelude::*;

verus! {

/// The identity of an account or a deployed contract on the ledger.
///
/// Two addresses denote the same party exactly when their identifiers agree.
#[derive(Clone, Copy, Debug, PartialEq, Eq, Structural, Hash)]
pub struct Address {
    pub id: u64,
}

impl Address {
    /// The address with the given identifier.
    pub fn new(id: u64) -> (r: Address)
        ensures
            r.id == id,
    {
        Address { id }
    }
}

/// The authorisations an invocation carries: the parties whose signatures it holds, or
/// every party at once (as in a test that mocks all authorisations).
pub struct Signers {
    all: bool,
    addresses: Vec<Address>,
}

impl Signers {
    /// Whether the invocation holds the authorisation of `a`.
    pub closed spec fn authorizes(&self, a: Address) -> bool {
        self.all || self.addresses@.contains(a)
    }

    /// Authorisations of every party.
    pub fn all() -> (r: Signers)
        ensures
            forall|a: Address| r.authorizes(a),
    {
        Signers { all: true, addresses: Vec::new() }
    }

    /// Authorisations of exactly the given parties.
    pub fn of(addresses: Vec<Address>) -> (r: Signers)
        ensures
            forall|a: Address| r.authorizes(a) <==> addresses@.contains(a),
    {
        Signers { all: false, addresses }
    }
}

} // verus!

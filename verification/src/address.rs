use vstd::prelude::*;

verus! {

/// Which kind of ledger entity an address names.
#[derive(Copy, Clone, Debug, PartialEq, Eq, Structural)]
pub enum AddressKind {
    /// An account, named by its 32-byte Ed25519 public key.
    Account,
    /// A contract, named by its 32-byte contract hash.
    Contract,
}

/// An address: its kind and its 32-byte payload, held as the big-endian
/// value of the first and of the last 16 bytes.
#[derive(Copy, Clone, Debug, PartialEq, Eq, Structural)]
pub struct Address {
    pub kind: AddressKind,
    pub key_hi: u128,
    pub key_lo: u128,
}

impl Address {
    pub fn new(kind: AddressKind, key_hi: u128, key_lo: u128) -> (a: Address)
        ensures
            a == (Address { kind, key_hi, key_lo }),
    {
        Address { kind, key_hi, key_lo }
    }

    /// Whether two addresses name the same entity.
    pub fn same_as(&self, other: &Address) -> (b: bool)
        ensures
            b == (*self == *other),
    {
        self.kind == other.kind && self.key_hi == other.key_hi && self.key_lo == other.key_lo
    }
}

/// The addresses whose authorization an invocation carries.
pub enum Signers {
    /// Every address has authorized the invocation.
    Everyone,
    /// Only these addresses have authorized the invocation.
    Only(Vec<Address>),
}

/// What the ledger supplies to one contract invocation: who has signed it,
/// and the ledger's timestamp (Unix seconds).
pub struct Invocation {
    pub signers: Signers,
    pub timestamp: u64,
}

/// Whether `a` has authorized the invocation `ctx`.
pub open spec fn signed_by(ctx: Invocation, a: Address) -> bool {
    match ctx.signers {
        Signers::Everyone => true,
        Signers::Only(v) => v@.contains(a),
    }
}

impl Invocation {
    /// An invocation authorized by every address.
    pub fn signed_by_everyone(timestamp: u64) -> (ctx: Invocation)
        ensures
            ctx.signers is Everyone,
            ctx.timestamp == timestamp,
            forall|a: Address| signed_by(ctx, a),
    {
        Invocation { signers: Signers::Everyone, timestamp }
    }

    /// An invocation authorized by exactly the addresses in `signers`.
    pub fn signed_by_only(signers: Vec<Address>, timestamp: u64) -> (ctx: Invocation)
        ensures
            ctx.signers is Only,
            ctx.signers->Only_0@ == signers@,
            ctx.timestamp == timestamp,
            forall|a: Address| signed_by(ctx, a) <==> signers@.contains(a),
    {
        Invocation { signers: Signers::Only(signers), timestamp }
    }

    /// Whether `a` has authorized this invocation.
    pub fn authorizes(&self, a: &Address) -> (b: bool)
        ensures
            b == signed_by(*self, *a),
    {
        match &self.signers {
            Signers::Everyone => true,
            Signers::Only(v) => {
                let n = v.len();
                let mut i: usize = 0;
                while i < n
                    invariant
                        n == v@.len(),
                        i <= n,
                        signed_by(*self, *a) == v@.contains(*a),
                        forall|j: int| 0 <= j < i ==> v@[j] != *a,
                    decreases n - i,
                {
                    if v[i].same_as(a) {
                        assert(v@[i as int] == *a);
                        return true;
                    }
                    i = i + 1;
                }
                false
            },
        }
    }
}

} // verus!

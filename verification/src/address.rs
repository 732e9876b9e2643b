//! Addresses of accounts and contracts.

use vstd::prelude::*;

verus! {

/// What kind of ledger object an address names.
#[derive(Clone, Copy, Debug, PartialEq, Eq, Structural)]
pub enum AddressKind {
    /// A user account, named by its public key.
    Account,
    /// A deployed contract, named by its contract hash.
    Contract,
}

/// An account or contract address: a kind and a 32-byte identifier.
///
/// The identifier is held as two big-endian halves, so that two addresses are
/// equal exactly when their fields are.
#[derive(Clone, Copy, Debug, PartialEq, Eq, Structural)]
pub struct Address {
    /// Account or contract.
    pub kind: AddressKind,
    /// The first sixteen bytes of the identifier.
    pub hi: u128,
    /// The last sixteen bytes of the identifier.
    pub lo: u128,
}

impl View for Address {
    type V = Address;

    open spec fn view(&self) -> Address {
        *self
    }
}

impl DeepView for Address {
    type V = Address;

    open spec fn deep_view(&self) -> Address {
        *self
    }
}

impl Address {
    /// The address of the account with the given identifier.
    pub fn account(hi: u128, lo: u128) -> (r: Address)
        ensures
            r == (Address { kind: AddressKind::Account, hi, lo }),
    {
        Address { kind: AddressKind::Account, hi, lo }
    }

    /// The address of the contract with the given identifier.
    pub fn contract(hi: u128, lo: u128) -> (r: Address)
        ensures
            r == (Address { kind: AddressKind::Contract, hi, lo }),
    {
        Address { kind: AddressKind::Contract, hi, lo }
    }
}

} // verus!

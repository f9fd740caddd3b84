//! Account handles: what the ledger lends the validator for the duration of
//! one operation.
use crate::address::Address;
use crate::viability::CostModel;
use vstd::prelude::*;

verus! {

/// A borrowed storage slot of the ledger.
#[derive(Clone, Debug, PartialEq, Eq)]
pub struct AccountHandle {
    /// The identifier of the slot.
    pub address: Address,
    /// The program that is authorized to change the slot's bytes.
    pub controlling_program: Address,
    /// Whether the holder of the address signed the operation; a fact the
    /// signature-verification layer supplies.
    pub is_signer: bool,
    /// The balance of the slot.
    pub lamport_balance: u64,
    /// The bytes stored in the slot.
    pub data: Vec<u8>,
}

/// The mathematical value of an account handle: the handle with its data
/// as a sequence of bytes.
pub struct AccountView {
    pub address: Address,
    pub controlling_program: Address,
    pub is_signer: bool,
    pub lamport_balance: u64,
    pub data: Seq<u8>,
}

impl View for AccountHandle {
    type V = AccountView;

    open spec fn view(&self) -> AccountView {
        AccountView {
            address: self.address,
            controlling_program: self.controlling_program,
            is_signer: self.is_signer,
            lamport_balance: self.lamport_balance,
            data: self.data@,
        }
    }
}

impl DeepView for AccountHandle {
    type V = AccountView;

    open spec fn deep_view(&self) -> AccountView {
        self@
    }
}

impl AccountHandle {
    /// The number of bytes stored in the slot.
    pub fn data_length(&self) -> (r: usize)
        ensures
            r == self@.data.len(),
    {
        self.data.len()
    }
}

/// The facts that the host environment supplies with every operation.
#[derive(Clone, Copy, Debug, PartialEq, Eq)]
pub struct HostContext {
    /// What it costs to keep data of a given length stored.
    pub cost_model: CostModel,
    /// The current time, in seconds.
    pub now: i64,
}

} // verus!

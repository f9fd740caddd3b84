//! Storage viability: an account persists only while its balance
//! covers the minimum that its data length calls for.
use crate::account::AccountHandle;
use crate::error::{verdict_of, ValidationError, ValidationVerdict};
use solana_program::rent::Rent;
use vstd::prelude::*;

verus! {

/// The bytes that the ledger charges for on top of an account's data.
pub const STORAGE_OVERHEAD: u64 = 128;

/// The longest data an account may hold.
pub const MAX_DATA_LENGTH: u64 = 10_485_760;

/// The highest rate for which the minimum balance of every permitted data
/// length fits 64 bits.
pub const MAX_LAMPORTS_PER_BYTE: u64 = 1_759_197_129_867;

/// The rent-equivalent cost model of the host: a price per stored byte.
#[derive(Clone, Copy, Debug, PartialEq, Eq)]
pub struct CostModel {
    pub lamports_per_byte: u64,
}

/// The minimum balance that data of `data_length` bytes needs at
/// `lamports_per_byte`: the rate times the data length plus the storage
/// overhead. There is none where the length or the rate is out of range.
pub open spec fn minimum_balance_spec(lamports_per_byte: u64, data_length: nat) -> Option<u64> {
    if data_length > MAX_DATA_LENGTH || lamports_per_byte > MAX_LAMPORTS_PER_BYTE {
        None
    } else {
        Some(((STORAGE_OVERHEAD + data_length) * lamports_per_byte) as u64)
    }
}

/// Whether a balance covers the minimum for a data length.
pub open spec fn viable_spec(cost_model: CostModel, balance: u64, data_length: nat) -> bool {
    match minimum_balance_spec(cost_model.lamports_per_byte, data_length) {
        Some(minimum) => balance >= minimum,
        None => false,
    }
}

/// What can leave a balance without taking it under the minimum for a data
/// length: the balance less the minimum, and nothing where the balance is
/// below the minimum or where there is no minimum.
pub open spec fn withdrawable_spec(cost_model: CostModel, balance: u64, data_length: nat) -> u64 {
    match minimum_balance_spec(cost_model.lamports_per_byte, data_length) {
        Some(minimum) => if balance >= minimum {
            (balance - minimum) as u64
        } else {
            0
        },
        None => 0,
    }
}

/// `Rent::try_minimum_balance` on `Rent::with_lamports_per_byte`: the rate
/// times the data length plus 128, and `None` where the data length exceeds
/// ten mebibytes or the rate exceeds the bound that keeps the product in 64
/// bits.
#[verifier::external_body]
fn rent_minimum_balance(lamports_per_byte: u64, data_length: usize) -> (r: Option<u64>)
    ensures
        r == minimum_balance_spec(lamports_per_byte, data_length as nat),
{
    Rent::with_lamports_per_byte(lamports_per_byte).try_minimum_balance(data_length)
}

impl CostModel {
    /// The minimum viable balance for data of `data_length` bytes.
    pub fn minimum_balance(&self, data_length: usize) -> (r: Option<u64>)
        ensures
            r == minimum_balance_spec(self.lamports_per_byte, data_length as nat),
    {
        rent_minimum_balance(self.lamports_per_byte, data_length)
    }

    /// Whether `balance` keeps data of `data_length` bytes stored.
    pub fn is_viable(&self, balance: u64, data_length: usize) -> (r: bool)
        ensures
            r == viable_spec(*self, balance, data_length as nat),
    {
        match self.minimum_balance(data_length) {
            Some(minimum) => balance >= minimum,
            None => false,
        }
    }

    /// What can be withdrawn from `balance` while data of `data_length`
    /// bytes stays stored.
    pub fn withdrawable(&self, balance: u64, data_length: usize) -> (r: u64)
        ensures
            r == withdrawable_spec(*self, balance, data_length as nat),
            r <= balance,
            viable_spec(*self, balance, data_length as nat) ==> viable_spec(
                *self,
                (balance - r) as u64,
                data_length as nat,
            ),
    {
        match self.minimum_balance(data_length) {
            Some(minimum) => balance.saturating_sub(minimum),
            None => 0,
        }
    }
}

/// Fails with `NotStorageViable` where the handle's balance is below the
/// minimum for its data length.
pub fn require_viable(handle: &AccountHandle, cost_model: &CostModel) -> (r: ValidationVerdict)
    ensures
        r == verdict_of(
            viable_spec(*cost_model, handle@.lamport_balance, handle@.data.len()),
            ValidationError::NotStorageViable,
        ),
{
    if cost_model.is_viable(handle.lamport_balance, handle.data.len()) {
        ValidationVerdict::Pass
    } else {
        ValidationVerdict::Fail(ValidationError::NotStorageViable)
    }
}

/// The amount a withdrawal from the handle is clamped to: the balance less
/// the minimum for its data length, saturating at zero. Taking it leaves a
/// viable account viable.
pub fn compute_withdrawable(handle: &AccountHandle, cost_model: &CostModel) -> (r: u64)
    ensures
        r == withdrawable_spec(*cost_model, handle@.lamport_balance, handle@.data.len()),
        r <= handle@.lamport_balance,
        viable_spec(*cost_model, handle@.lamport_balance, handle@.data.len()) ==> viable_spec(
            *cost_model,
            (handle@.lamport_balance - r) as u64,
            handle@.data.len(),
        ),
{
    cost_model.withdrawable(handle.lamport_balance, handle.data.len())
}

} // verus!

//! A validator for operations on shared ledger accounts. Every operation
//! that changes state passes an ordered list of checks before anything is
//! written, and a failed check leaves every account as it was.
//!
//! The checks live in modules of their own: `authority` (who controls an
//! account, who signed), `lifecycle` (initialized once), `schema` (records
//! behind discriminants), `relationship` and `derivation` (stored and derived
//! addresses), `viability` (balances that keep data stored), on the data of
//! `address`, `account` and `roles`. `pipeline` composes them and commits;
//! `arithmetic` is what every mutation computes with; `codec` and
//! `instruction` read and write bytes. The remaining modules are the
//! programs, one module each, whose operations run through the pipeline.
pub mod account;
pub mod account_data_matching;
pub mod address;
pub mod arbitrary_cpi;
pub mod arithmetic;
pub mod arithmetic_errors;
pub mod authority;
pub mod codec;
pub mod derivation;
pub mod error;
pub mod instruction;
pub mod lifecycle;
pub mod missing_owner_check;
pub mod missing_signer_check;
pub mod pda_issues;
pub mod pipeline;
pub mod reinitialization;
pub mod relationship;
pub mod rent_exemption;
pub mod roles;
pub mod schema;
pub mod type_confusion;
pub mod viability;

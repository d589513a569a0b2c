//! Accounting core of a token presale with cliff-plus-linear vesting.
//!
//! The library decides; the surrounding program reads accounts, the clock and
//! the rent sysvar, and carries out the account creations and token transfers
//! that the library hands back.
pub mod address;
pub mod error;
pub mod records;
pub mod vesting;
pub mod instructions;
pub mod laws;

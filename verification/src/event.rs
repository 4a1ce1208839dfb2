//! What each pool instruction reports once it succeeds

use vstd::prelude::*;

use crate::state::{UpdatePoolConfigMode, UpdatePoolConfigValue};

verus! {

/// A deposit of both tokens
#[derive(Debug, Clone, Copy, PartialEq, Eq, Structural)]
pub struct Deposit {
    /// Token A deposited
    pub token_a_amount: u64,
    /// Token B deposited
    pub token_b_amount: u64,
    /// Pool tokens minted
    pub pool_token_amount: u64,
}

/// A withdrawal of both tokens
#[derive(Debug, Clone, Copy, PartialEq, Eq, Structural)]
pub struct Withdraw {
    /// Token A withdrawn
    pub token_a_amount: u64,
    /// Token B withdrawn
    pub token_b_amount: u64,
    /// Pool tokens burnt
    pub pool_token_amount: u64,
    /// Token A fees
    pub token_a_fees: u64,
    /// Token B fees
    pub token_b_fees: u64,
}

/// A deposit of one token
#[derive(Debug, Clone, Copy, PartialEq, Eq, Structural)]
pub struct DepositSingleTokenType {
    /// Tokens deposited
    pub token_amount: u64,
    /// Pool tokens minted
    pub pool_token_amount: u64,
}

/// A withdrawal of one token
#[derive(Debug, Clone, Copy, PartialEq, Eq, Structural)]
pub struct WithdrawSingleTokenType {
    /// Pool tokens given up, the withdraw fee included
    pub pool_token_amount: u64,
    /// Tokens withdrawn
    pub token_amount: u64,
    /// Pool tokens sent to the fees vault
    pub fee: u64,
}

/// A swap
#[derive(Debug, Clone, Copy, PartialEq, Eq, Structural)]
pub struct Swap {
    /// Source tokens sent to the vault
    pub token_in_amount: u64,
    /// Destination tokens sent to the user
    pub token_out_amount: u64,
    /// The total fees collected (includes owner, trading, + host fees)
    pub total_fees: u64,
}

/// A withdrawal from a fees vault
#[derive(Debug, Clone, Copy, PartialEq, Eq, Structural)]
pub struct WithdrawFees {
    /// Tokens withdrawn
    pub withdraw_amount: u64,
}

/// An update of a pool setting
#[derive(Debug, Clone, Copy, PartialEq, Eq, Structural)]
pub struct UpdatePoolConfig {
    /// The setting updated
    pub mode: UpdatePoolConfigMode,
    /// Its new value
    pub value: UpdatePoolConfigValue,
}

} // verus!

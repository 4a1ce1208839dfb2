//! Instruction data

use vstd::prelude::*;

use crate::curve::fees::Fees;
use crate::instructions::{CurveUserParameters, InitialSupply};
use crate::state::{UpdatePoolConfigMode, UpdatePoolConfigValue};

verus! {

/// Initialize instruction data
#[derive(Debug, Clone, Copy, PartialEq, Eq, Structural)]
pub struct Initialize {
    /// all swap fees
    pub fees: Fees,
    /// swap curve info for pool, including CurveType and anything
    /// else that may be required
    pub curve_parameters: CurveUserParameters,
    /// initial supply of token A and B
    pub initial_supply: InitialSupply,
}

impl Initialize {
    /// Bundle the initialize instruction data
    pub fn new(fees: Fees, curve_parameters: CurveUserParameters, initial_supply: InitialSupply) -> (r:
        Self)
        ensures
            r == (Initialize { fees, curve_parameters, initial_supply }),
    {
        Initialize { fees, curve_parameters, initial_supply }
    }
}

/// Swap instruction data
#[derive(Debug, Clone, Copy, PartialEq, Eq, Structural)]
pub struct Swap {
    /// SOURCE amount to transfer, output to DESTINATION is based on the exchange rate
    pub amount_in: u64,
    /// Minimum amount of DESTINATION token to output, prevents excessive slippage
    pub minimum_amount_out: u64,
}

impl Swap {
    /// Bundle the swap instruction data
    pub fn new(amount_in: u64, minimum_amount_out: u64) -> (r: Self)
        ensures
            r == (Swap { amount_in, minimum_amount_out }),
    {
        Swap { amount_in, minimum_amount_out }
    }
}

/// Deposit instruction data
#[derive(Debug, Clone, Copy, PartialEq, Eq, Structural)]
pub struct Deposit {
    /// Pool token amount to transfer. token_a and token_b amount are set by
    /// the current exchange rate and size of the pool
    pub pool_token_amount: u64,
    /// Maximum token A amount to deposit, prevents excessive slippage
    pub maximum_token_a_amount: u64,
    /// Maximum token B amount to deposit, prevents excessive slippage
    pub maximum_token_b_amount: u64,
}

impl Deposit {
    /// Bundle the deposit instruction data
    pub fn new(pool_token_amount: u64, maximum_token_a_amount: u64, maximum_token_b_amount: u64) -> (r:
        Self)
        ensures
            r == (Deposit { pool_token_amount, maximum_token_a_amount, maximum_token_b_amount }),
    {
        Deposit { pool_token_amount, maximum_token_a_amount, maximum_token_b_amount }
    }
}

/// Withdraw instruction data
#[derive(Debug, Clone, Copy, PartialEq, Eq, Structural)]
pub struct Withdraw {
    /// Amount of pool tokens to burn. User receives an output of token a
    /// and b based on the percentage of the pool tokens that are returned.
    pub pool_token_amount: u64,
    /// Minimum amount of token A to receive, prevents excessive slippage
    pub minimum_token_a_amount: u64,
    /// Minimum amount of token B to receive, prevents excessive slippage
    pub minimum_token_b_amount: u64,
}

impl Withdraw {
    /// Bundle the withdraw instruction data
    pub fn new(pool_token_amount: u64, minimum_token_a_amount: u64, minimum_token_b_amount: u64) -> (r:
        Self)
        ensures
            r == (Withdraw { pool_token_amount, minimum_token_a_amount, minimum_token_b_amount }),
    {
        Withdraw { pool_token_amount, minimum_token_a_amount, minimum_token_b_amount }
    }
}

/// WithdrawFees instruction data
#[derive(Debug, Clone, Copy, PartialEq, Eq, Structural)]
pub struct WithdrawFees {
    /// Amount of trading tokens to withdraw
    pub requested_token_amount: u64,
}

/// UpdatePoolConfig instruction data
#[derive(Debug, Clone, Copy, PartialEq, Eq, Structural)]
pub struct UpdatePoolConfig {
    /// Update mode
    pub mode: UpdatePoolConfigMode,
    /// Value to set
    pub value: UpdatePoolConfigValue,
}

impl UpdatePoolConfig {
    /// Bundle the update instruction data
    pub fn new(mode: UpdatePoolConfigMode, value: UpdatePoolConfigValue) -> (r: Self)
        ensures
            r == (UpdatePoolConfig { mode, value }),
    {
        UpdatePoolConfig { mode, value }
    }
}

} // verus!

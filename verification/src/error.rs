use vstd::prelude::*;

verus! {

/// Errors that may be returned by the hyperplane pool logic.
#[derive(Debug, Clone, Copy, PartialEq, Eq, Structural)]
pub enum SwapError {
    /// The account cannot be initialized because it is already being used.
    AlreadyInUse,
    /// The program address provided doesn't match the value generated by the program.
    InvalidProgramAddress,
    /// The owner of the input isn't set to the program address generated by the program.
    InvalidOwner,
    /// The owner of the pool token output is set to the program address generated by the program.
    InvalidOutputOwner,
    /// The deserialization of the account returned something besides State::Mint.
    ExpectedMint,
    /// The deserialization of the account returned something besides State::Account.
    ExpectedAccount,
    /// The input token account is empty.
    EmptySupply,
    /// The pool token mint has a non-zero supply.
    InvalidSupply,
    /// The provided token account has a delegate.
    InvalidDelegate,
    /// The input token is invalid for swap.
    InvalidInput,
    /// Address of the provided swap token account is incorrect.
    IncorrectSwapAccount,
    /// Address of the provided pool token mint is incorrect
    IncorrectPoolMint,
    /// The output token is invalid for swap.
    InvalidOutput,
    /// General calculation failure due to overflow or underflow
    CalculationFailure,
    /// Invalid instruction number passed in.
    InvalidInstruction,
    /// Swap input token accounts have the same mint
    RepeatedMint,
    /// Swap instruction exceeds desired slippage limit
    ExceededSlippage,
    /// The provided token account has a close authority.
    InvalidCloseAuthority,
    /// The pool token mint has a freeze authority.
    InvalidFreezeAuthority,
    /// The pool fee token account is incorrect
    IncorrectFeeAccount,
    /// Given pool token amount results in zero trading tokens
    ZeroTradingTokens,
    /// Fee calculation failed due to overflow, underflow, or unexpected 0
    FeeCalculationFailure,
    /// Conversion to u64 failed with an overflow or underflow
    ConversionFailure,
    /// The provided fee does not match the program owner's constraints
    InvalidFee,
    /// The provided token program does not match the token program expected by the swap
    IncorrectTokenProgramId,
    /// The provided curve type is not supported by the program owner
    UnsupportedCurveType,
    /// The provided curve parameters are invalid
    InvalidCurve,
    /// The operation cannot be performed on the given curve
    UnsupportedCurveOperation,
    /// The pool admin provided does not match the program owner's constraints
    InvaliPoolAdmin,
    /// The trading token mint does not belong to the pool
    IncorrectTradingMint,
    /// The trading token mint has an extension that is blocked
    InvalidTokenExtension,
    /// The pool is in withdrawals only mode
    WithdrawalsOnlyMode,
    /// The user does not hold enough pool tokens
    InsufficientPoolTokenFunds,
    /// The instruction's arguments could not be read
    InstructionDidNotDeserialize,
    /// The token program refused a mint account's bytes, with the code of
    /// its `ProgramError`
    TokenProgram(u64),
}

} // verus!

//! Token-2022 transfer fees on the amounts a swap moves

use vstd::prelude::*;

use spl_token_2022::extension::transfer_fee::{TransferFee, TransferFeeConfig};
use spl_token_2022::extension::BaseStateWithExtensions;

use crate::curve::fees::{u128_max, Fees};
use crate::error::SwapError;

verus! {

/// The terms of one transfer fee of a token-2022 mint, as plain integers.
#[derive(Debug, Clone, Copy, PartialEq, Eq, Structural)]
pub struct TransferFeeTerms {
    /// First epoch where the transfer fee takes effect
    pub epoch: u64,
    /// Maximum fee assessed on transfers, expressed as an amount of tokens
    pub maximum_fee: u64,
    /// Amount of transfer collected as fees, expressed as basis points of the
    /// transfer amount, ie. increments of 0.01%
    pub transfer_fee_basis_points: u16,
}

/// The transfer fee configuration of a token-2022 mint: an older fee and the
/// newer one that replaces it from its epoch on.
#[derive(Debug, Clone, Copy, PartialEq, Eq, Structural)]
pub struct TransferFeeSchedule {
    /// Older transfer fee, used if the current epoch < newer.epoch
    pub older: TransferFeeTerms,
    /// Newer transfer fee, used if the current epoch >= newer.epoch
    pub newer: TransferFeeTerms,
}

/// One hundred percent in basis points.
pub open spec fn one_in_basis_points() -> int {
    10_000
}

/// The largest `u64`, as a mathematical integer.
pub open spec fn u64_max() -> int {
    0xffff_ffff_ffff_ffff
}

/// The terms that apply in `epoch`.
pub open spec fn terms_for_epoch(schedule: TransferFeeSchedule, epoch: int) -> TransferFeeTerms {
    if epoch >= schedule.newer.epoch {
        schedule.newer
    } else {
        schedule.older
    }
}

/// The fee on a transfer of `amount`: the basis points of it, rounded up and
/// capped at the maximum fee; nothing for a zero rate or amount. `None` where
/// the rounded fee leaves `u64`.
pub open spec fn transfer_fee_of(terms: TransferFeeTerms, amount: int) -> Option<int> {
    let bps = terms.transfer_fee_basis_points as int;
    if bps == 0 || amount == 0 {
        Some(0)
    } else {
        let raw = (amount * bps + one_in_basis_points() - 1) / one_in_basis_points();
        if raw > u64_max() {
            None
        } else if raw < terms.maximum_fee {
            Some(raw)
        } else {
            Some(terms.maximum_fee as int)
        }
    }
}

/// The smallest transfer amount that leaves `post_fee_amount` after the fee,
/// as the crate computes it.
pub open spec fn pre_fee_amount_of(terms: TransferFeeTerms, post_fee_amount: int) -> Option<int> {
    let bps = terms.transfer_fee_basis_points as int;
    if bps == 0 {
        Some(post_fee_amount)
    } else if bps == one_in_basis_points() || post_fee_amount == 0 {
        Some(0)
    } else if bps > one_in_basis_points() {
        None
    } else {
        let numerator = post_fee_amount * one_in_basis_points();
        let denominator = one_in_basis_points() - bps;
        let raw = (numerator + denominator - 1) / denominator;
        if raw < post_fee_amount {
            None
        } else if raw - post_fee_amount >= terms.maximum_fee {
            if post_fee_amount + terms.maximum_fee > u64_max() {
                None
            } else {
                Some(post_fee_amount + terms.maximum_fee)
            }
        } else if raw > u64_max() {
            None
        } else {
            Some(raw)
        }
    }
}

/// The fee charged on the transfer that leaves `post_fee_amount`.
pub open spec fn inverse_fee_of(terms: TransferFeeTerms, post_fee_amount: int) -> Option<int> {
    match pre_fee_amount_of(terms, post_fee_amount) {
        Some(pre) => transfer_fee_of(terms, pre),
        None => None,
    }
}

/// The transfer fee schedule read from the bytes of a token-2022 mint
/// account, `None` for a mint without a transfer fee extension; where the
/// bytes are no initialized mint, the code of the `ProgramError` that
/// unpacking them gives.
pub uninterp spec fn mint_transfer_fee_schedule_of(mint_data: Seq<u8>) -> Result<
    Option<TransferFeeSchedule>,
    u64,
>;

/// The extension types, by their `u16` numbers, read from the bytes of a
/// token-2022 mint account; where the bytes are no initialized mint or the
/// extension data cannot be read, the code of the `ProgramError` given.
pub uninterp spec fn mint_extension_types_of(mint_data: Seq<u8>) -> Result<Seq<u16>, u64>;

/// `StateWithExtensions::<Mint>::unpack` followed by `get_extension::<TransferFeeConfig>`.
///
/// Trusted: the result is named `mint_transfer_fee_schedule_of` of the bytes;
/// a missing or unreadable extension counts as no transfer fee, and an
/// unpacking error is given as its `u64` code.
#[verifier::external_body]
pub(crate) fn unpack_transfer_fee_schedule(mint_data: &[u8]) -> (r: Result<
    Option<TransferFeeSchedule>,
    u64,
>)
    ensures
        r == mint_transfer_fee_schedule_of(mint_data@),
{
    let mint = spl_token_2022::extension::StateWithExtensions::<spl_token_2022::state::Mint>::unpack(mint_data).map_err(u64::from)?;
    Ok(mint.get_extension::<spl_token_2022::extension::transfer_fee::TransferFeeConfig>().ok().map(|c| TransferFeeSchedule {
        older: TransferFeeTerms { epoch: c.older_transfer_fee.epoch.into(), maximum_fee: c.older_transfer_fee.maximum_fee.into(), transfer_fee_basis_points: c.older_transfer_fee.transfer_fee_basis_points.into() },
        newer: TransferFeeTerms { epoch: c.newer_transfer_fee.epoch.into(), maximum_fee: c.newer_transfer_fee.maximum_fee.into(), transfer_fee_basis_points: c.newer_transfer_fee.transfer_fee_basis_points.into() },
    }))
}

/// `StateWithExtensions::<Mint>::unpack` followed by `get_extension_types`.
///
/// Trusted: the result is named `mint_extension_types_of` of the bytes, an
/// error given as its `u64` code.
#[verifier::external_body]
pub(crate) fn unpack_extension_types(mint_data: &[u8]) -> (r: Result<Vec<u16>, u64>)
    ensures
        match r {
            Ok(v) => mint_extension_types_of(mint_data@) == Ok::<Seq<u16>, u64>(v@),
            Err(code) => mint_extension_types_of(mint_data@) == Err::<Seq<u16>, u64>(code),
        },
{
    let mint = spl_token_2022::extension::StateWithExtensions::<spl_token_2022::state::Mint>::unpack(mint_data).map_err(u64::from)?;
    Ok(mint.get_extension_types().map_err(u64::from)?.into_iter().map(u16::from).collect())
}

/// `TransferFeeConfig::calculate_epoch_fee`.
///
/// Trusted: the fee of the terms in force in `epoch`, as `transfer_fee_of`
/// restates `TransferFee::calculate_fee` from the crate's source.
#[verifier::external_body]
pub(crate) fn calculate_epoch_fee(schedule: &TransferFeeSchedule, epoch: u64, pre_fee_amount: u64) -> (r:
    Option<u64>)
    ensures
        match transfer_fee_of(terms_for_epoch(*schedule, epoch as int), pre_fee_amount as int) {
            Some(f) => r == Some(f as u64),
            None => r is None,
        },
{
    let config = TransferFeeConfig {
        transfer_fee_config_authority: Default::default(),
        withdraw_withheld_authority: Default::default(),
        withheld_amount: 0u64.into(),
        older_transfer_fee: TransferFee { epoch: schedule.older.epoch.into(), maximum_fee: schedule.older.maximum_fee.into(), transfer_fee_basis_points: schedule.older.transfer_fee_basis_points.into() },
        newer_transfer_fee: TransferFee { epoch: schedule.newer.epoch.into(), maximum_fee: schedule.newer.maximum_fee.into(), transfer_fee_basis_points: schedule.newer.transfer_fee_basis_points.into() },
    };
    config.calculate_epoch_fee(epoch, pre_fee_amount)
}

/// `TransferFeeConfig::calculate_inverse_epoch_fee`.
///
/// Trusted: the fee, under the terms in force in `epoch`, of the smallest
/// transfer that leaves `post_fee_amount`, as `inverse_fee_of` restates
/// `TransferFee::calculate_inverse_fee` from the crate's source.
#[verifier::external_body]
pub(crate) fn calculate_inverse_epoch_fee(
    schedule: &TransferFeeSchedule,
    epoch: u64,
    post_fee_amount: u64,
) -> (r: Option<u64>)
    ensures
        match inverse_fee_of(terms_for_epoch(*schedule, epoch as int), post_fee_amount as int) {
            Some(f) => r == Some(f as u64),
            None => r is None,
        },
{
    let config = TransferFeeConfig {
        transfer_fee_config_authority: Default::default(),
        withdraw_withheld_authority: Default::default(),
        withheld_amount: 0u64.into(),
        older_transfer_fee: TransferFee { epoch: schedule.older.epoch.into(), maximum_fee: schedule.older.maximum_fee.into(), transfer_fee_basis_points: schedule.older.transfer_fee_basis_points.into() },
        newer_transfer_fee: TransferFee { epoch: schedule.newer.epoch.into(), maximum_fee: schedule.newer.maximum_fee.into(), transfer_fee_basis_points: schedule.newer.transfer_fee_basis_points.into() },
    };
    config.calculate_inverse_epoch_fee(epoch, post_fee_amount)
}

/// Read the transfer fee schedule of a token-2022 mint from the mint
/// account's bytes: `None` for a mint without a transfer fee.
pub fn mint_transfer_fee_schedule(mint_data: &[u8]) -> (r: Result<
    Option<TransferFeeSchedule>,
    SwapError,
>)
    ensures
        match mint_transfer_fee_schedule_of(mint_data@) {
            Err(code) => r == Err::<Option<TransferFeeSchedule>, SwapError>(
                SwapError::TokenProgram(code),
            ),
            Ok(s) => r == Ok::<Option<TransferFeeSchedule>, SwapError>(s),
        },
{
    match unpack_transfer_fee_schedule(mint_data) {
        Ok(s) => Ok(s),
        Err(code) => Err(SwapError::TokenProgram(code)),
    }
}

/// A `u128` amount narrowed to `u64`, failing with `ConversionFailure` where it does not fit.
pub open spec fn to_u64_of(amount: int) -> Result<u64, SwapError> {
    if amount > u64_max() {
        Err(SwapError::ConversionFailure)
    } else {
        Ok(amount as u64)
    }
}

/// Narrow a `u128` amount to `u64`.
pub fn to_u64(amount: u128) -> (r: Result<u64, SwapError>)
    ensures
        r == to_u64_of(amount as int),
{
    if amount > 0xffff_ffff_ffff_ffffu128 {
        Err(SwapError::ConversionFailure)
    } else {
        Ok(amount as u64)
    }
}

/// What a user receives of `amount` sent under the mint's transfer fee schedule.
pub open spec fn sub_transfer_fee_of(
    schedule: Option<TransferFeeSchedule>,
    epoch: int,
    amount: int,
) -> Result<u64, SwapError> {
    match schedule {
        None => Ok(amount as u64),
        Some(s) => match transfer_fee_of(terms_for_epoch(s, epoch), amount) {
            None => Err(SwapError::FeeCalculationFailure),
            Some(fee) => if fee > amount {
                Err(SwapError::CalculationFailure)
            } else {
                Ok((amount - fee) as u64)
            },
        },
    }
}

/// What must be sent under the mint's transfer fee schedule for
/// `post_fee_amount` to arrive.
pub open spec fn add_inverse_transfer_fee_of(
    schedule: Option<TransferFeeSchedule>,
    epoch: int,
    post_fee_amount: int,
) -> Result<u64, SwapError> {
    match schedule {
        None => Ok(post_fee_amount as u64),
        Some(s) => match inverse_fee_of(terms_for_epoch(s, epoch), post_fee_amount) {
            None => Err(SwapError::FeeCalculationFailure),
            Some(fee) => if post_fee_amount + fee > u64_max() {
                Err(SwapError::CalculationFailure)
            } else {
                Ok((post_fee_amount + fee) as u64)
            },
        },
    }
}

/// The host fee and the transfer fee on it, where a host fee is paid.
pub open spec fn host_part_of(
    terms: TransferFeeTerms,
    fees: Fees,
    owner_and_host_fee: int,
    host_fee: bool,
) -> Result<(int, int), SwapError> {
    if !host_fee {
        Ok((0, 0))
    } else {
        match fees.host_fee_of(owner_and_host_fee) {
            None => Err(SwapError::CalculationFailure),
            Some(fee) => if fee > u64_max() {
                Err(SwapError::ConversionFailure)
            } else {
                match transfer_fee_of(terms, fee) {
                    None => Err(SwapError::FeeCalculationFailure),
                    Some(transfer_fee) => Ok((fee, transfer_fee)),
                }
            },
        }
    }
}

/// The amount of a swap input of `amount_in` that is left once the transfer
/// fees of its (up to) three transfers are taken: to the vault, to the owner
/// fee vault and, where a host fee account is given, to the host.
pub open spec fn sub_input_transfer_fees_of(
    schedule: Option<TransferFeeSchedule>,
    epoch: int,
    fees: Fees,
    amount_in: int,
    host_fee: bool,
) -> Result<u64, SwapError> {
    match schedule {
        None => Ok(amount_in as u64),
        Some(s) => {
            let terms = terms_for_epoch(s, epoch);
            match fees.owner_trading_fee_of(amount_in) {
                None => Err(SwapError::CalculationFailure),
                Some(owner_and_host_fee) => match host_part_of(
                    terms,
                    fees,
                    owner_and_host_fee,
                    host_fee,
                ) {
                    Err(e) => Err(e),
                    Ok((host, host_transfer_fee)) => if owner_and_host_fee < host {
                        Err(SwapError::CalculationFailure)
                    } else if owner_and_host_fee - host > u64_max() {
                        Err(SwapError::ConversionFailure)
                    } else {
                        match transfer_fee_of(terms, owner_and_host_fee - host) {
                            None => Err(SwapError::FeeCalculationFailure),
                            Some(owner_transfer_fee) => if owner_and_host_fee > u64_max() {
                                Err(SwapError::ConversionFailure)
                            } else if amount_in < owner_and_host_fee {
                                Err(SwapError::CalculationFailure)
                            } else {
                                match transfer_fee_of(terms, amount_in - owner_and_host_fee) {
                                    None => Err(SwapError::FeeCalculationFailure),
                                    Some(vault_transfer_fee) => if amount_in - vault_transfer_fee
                                        - owner_transfer_fee - host_transfer_fee < 0 {
                                        Err(SwapError::CalculationFailure)
                                    } else {
                                        Ok(
                                            (amount_in - vault_transfer_fee - owner_transfer_fee
                                                - host_transfer_fee) as u64,
                                        )
                                    },
                                }
                            },
                        }
                    },
                },
            }
        },
    }
}

/// Subtract token mint transfer fees for actual amount received by the user
/// post-transfer fees, given the mint's transfer fee schedule (if any) and
/// the current epoch.
pub fn sub_transfer_fee_for_schedule(
    schedule: Option<TransferFeeSchedule>,
    epoch: u64,
    amount: u64,
) -> (r: Result<u64, SwapError>)
    ensures
        r == sub_transfer_fee_of(schedule, epoch as int, amount as int),
        r is Ok ==> r->Ok_0 <= amount,
{
    match schedule {
        None => Ok(amount),
        Some(s) => {
            let transfer_fee = match calculate_epoch_fee(&s, epoch, amount) {
                Some(f) => f,
                None => return Err(SwapError::FeeCalculationFailure),
            };
            match amount.checked_sub(transfer_fee) {
                Some(a) => Ok(a),
                None => Err(SwapError::CalculationFailure),
            }
        },
    }
}

/// Subtract token mint transfer fees for actual amount received by the user
/// post-transfer fees, reading the schedule from the mint account's bytes.
pub fn sub_transfer_fee(mint_data: &[u8], epoch: u64, amount: u64) -> (r: Result<u64, SwapError>)
    ensures
        match mint_transfer_fee_schedule_of(mint_data@) {
            Err(code) => r == Err::<u64, SwapError>(SwapError::TokenProgram(code)),
            Ok(s) => r == sub_transfer_fee_of(s, epoch as int, amount as int),
        },
{
    let schedule = match unpack_transfer_fee_schedule(mint_data) {
        Ok(s) => s,
        Err(code) => return Err(SwapError::TokenProgram(code)),
    };
    sub_transfer_fee_for_schedule(schedule, epoch, amount)
}

/// Add token mint transfer fees for actual amount sent pre-transfer fees,
/// given the mint's transfer fee schedule (if any) and the current epoch.
pub fn add_inverse_transfer_fee_for_schedule(
    schedule: Option<TransferFeeSchedule>,
    epoch: u64,
    post_fee_amount: u64,
) -> (r: Result<u64, SwapError>)
    ensures
        r == add_inverse_transfer_fee_of(schedule, epoch as int, post_fee_amount as int),
        r is Ok ==> r->Ok_0 >= post_fee_amount,
{
    match schedule {
        None => Ok(post_fee_amount),
        Some(s) => {
            let transfer_fee = match calculate_inverse_epoch_fee(&s, epoch, post_fee_amount) {
                Some(f) => f,
                None => return Err(SwapError::FeeCalculationFailure),
            };
            match post_fee_amount.checked_add(transfer_fee) {
                Some(a) => Ok(a),
                None => Err(SwapError::CalculationFailure),
            }
        },
    }
}

/// Add token mint transfer fees for actual amount sent pre-transfer fees,
/// reading the schedule from the mint account's bytes.
pub fn add_inverse_transfer_fee(mint_data: &[u8], epoch: u64, post_fee_amount: u64) -> (r: Result<
    u64,
    SwapError,
>)
    ensures
        match mint_transfer_fee_schedule_of(mint_data@) {
            Err(code) => r == Err::<u64, SwapError>(SwapError::TokenProgram(code)),
            Ok(s) => r == add_inverse_transfer_fee_of(s, epoch as int, post_fee_amount as int),
        },
{
    let schedule = match unpack_transfer_fee_schedule(mint_data) {
        Ok(s) => s,
        Err(code) => return Err(SwapError::TokenProgram(code)),
    };
    add_inverse_transfer_fee_for_schedule(schedule, epoch, post_fee_amount)
}

/// Subtract token mint transfer fees for actual amount received by the pool
/// post-transfer fees, given the mint's transfer fee schedule (if any) and the
/// current epoch.
///
/// There are potentially 3 input transfers:
/// 1. User -> Pool
/// 2. User -> Fees
/// 3. User -> Host Fees (optional)
///
/// At low token amounts, the fees on each transfer rounding up can result in
/// the user paying more than the amount_in, causing an unexpected
/// `ExceededSlippage` error
pub fn sub_input_transfer_fees_for_schedule(
    schedule: Option<TransferFeeSchedule>,
    epoch: u64,
    fees: &Fees,
    amount_in: u64,
    host_fee: bool,
) -> (r: Result<u64, SwapError>)
    ensures
        r == sub_input_transfer_fees_of(schedule, epoch as int, *fees, amount_in as int, host_fee),
        r is Ok ==> r->Ok_0 <= amount_in,
{
    let s = match schedule {
        None => return Ok(amount_in),
        Some(s) => s,
    };
    let ghost terms = terms_for_epoch(s, epoch as int);
    let owner_and_host_fee = fees.owner_trading_fee(amount_in as u128)?;
    let (host_fee_amount, host_transfer_fee) = if host_fee {
        let fee = fees.host_fee(owner_and_host_fee)?;
        let fee_u64 = to_u64(fee)?;
        let transfer_fee = match calculate_epoch_fee(&s, epoch, fee_u64) {
            Some(f) => f,
            None => return Err(SwapError::FeeCalculationFailure),
        };
        (fee, transfer_fee)
    } else {
        (0u128, 0u64)
    };
    assert(host_part_of(terms, *fees, owner_and_host_fee as int, host_fee) == Ok::<
        (int, int),
        SwapError,
    >((host_fee_amount as int, host_transfer_fee as int)));
    let owner_fee = match owner_and_host_fee.checked_sub(host_fee_amount) {
        Some(o) => o,
        None => return Err(SwapError::CalculationFailure),
    };
    let owner_fee_u64 = to_u64(owner_fee)?;
    let owner_transfer_fee = match calculate_epoch_fee(&s, epoch, owner_fee_u64) {
        Some(f) => f,
        None => return Err(SwapError::FeeCalculationFailure),
    };
    let owner_and_host_fee_u64 = to_u64(owner_and_host_fee)?;
    let vault_amount_in = match amount_in.checked_sub(owner_and_host_fee_u64) {
        Some(v) => v,
        None => return Err(SwapError::CalculationFailure),
    };
    let vault_transfer_fee = match calculate_epoch_fee(&s, epoch, vault_amount_in) {
        Some(f) => f,
        None => return Err(SwapError::FeeCalculationFailure),
    };
    let less_vault = match amount_in.checked_sub(vault_transfer_fee) {
        Some(v) => v,
        None => return Err(SwapError::CalculationFailure),
    };
    let less_owner = match less_vault.checked_sub(owner_transfer_fee) {
        Some(v) => v,
        None => return Err(SwapError::CalculationFailure),
    };
    match less_owner.checked_sub(host_transfer_fee) {
        Some(v) => Ok(v),
        None => Err(SwapError::CalculationFailure),
    }
}

/// Subtract the input transfer fees of a swap, reading the schedule from the
/// source mint account's bytes.
pub fn sub_input_transfer_fees(
    mint_data: &[u8],
    epoch: u64,
    fees: &Fees,
    amount_in: u64,
    host_fee: bool,
) -> (r: Result<u64, SwapError>)
    ensures
        match mint_transfer_fee_schedule_of(mint_data@) {
            Err(code) => r == Err::<u64, SwapError>(SwapError::TokenProgram(code)),
            Ok(s) => r == sub_input_transfer_fees_of(
                s,
                epoch as int,
                *fees,
                amount_in as int,
                host_fee,
            ),
        },
{
    let schedule = match unpack_transfer_fee_schedule(mint_data) {
        Ok(s) => s,
        Err(code) => return Err(SwapError::TokenProgram(code)),
    };
    sub_input_transfer_fees_for_schedule(schedule, epoch, fees, amount_in, host_fee)
}

/// A transfer fee of at most half the amount, with no cap below the `u64`
/// range: sending what arrives of `amount` again, grossed up by the inverse
/// fee, costs `amount` or one token less, never more.
pub proof fn lemma_sub_then_add_inverse_transfer_fee(
    schedule: TransferFeeSchedule,
    epoch: u64,
    amount: u64,
)
    requires
        terms_for_epoch(schedule, epoch as int).transfer_fee_basis_points <= 5_000,
        terms_for_epoch(schedule, epoch as int).maximum_fee == u64::MAX,
    ensures
        sub_transfer_fee_of(Some(schedule), epoch as int, amount as int) is Ok,
        ({
            let received = sub_transfer_fee_of(Some(schedule), epoch as int, amount as int)->Ok_0;
            let resent = add_inverse_transfer_fee_of(Some(schedule), epoch as int, received as int);
            &&& resent is Ok
            &&& amount - 1 <= resent->Ok_0 <= amount
        }),
{
    let terms = terms_for_epoch(schedule, epoch as int);
    let a = amount as int;
    let b = terms.transfer_fee_basis_points as int;
    let n = one_in_basis_points();
    if b == 0 || a == 0 {
        return;
    }
    let f = (a * b + n - 1) / n;
    assert(f * n >= a * b && f * n < a * b + n && f >= 0) by (nonlinear_arith)
        requires
            f == (a * b + n - 1) / n,
            n == 10_000,
            a >= 0,
            b >= 0,
    ;
    assert(f <= a) by (nonlinear_arith)
        requires
            f * n < a * b + n,
            b <= 5_000,
            n == 10_000,
            a >= 1,
    ;
    assert(transfer_fee_of(terms, a) == Some(f));
    let post = a - f;
    assert(sub_transfer_fee_of(Some(schedule), epoch as int, a) == Ok::<u64, SwapError>(post as u64));
    if post == 0 {
        assert(a <= 1) by (nonlinear_arith)
            requires
                f == a,
                f * n < a * b + n,
                b <= 5_000,
                n == 10_000,
                a >= 1,
        ;
        assert(pre_fee_amount_of(terms, 0) == Some(0int));
        assert(transfer_fee_of(terms, 0) == Some(0int));
        return;
    }
    let d = n - b;
    let raw = (post * n + d - 1) / d;
    assert(raw * d >= post * n && raw * d < post * n + d) by (nonlinear_arith)
        requires
            raw == (post * n + d - 1) / d,
            d >= 5_000,
            post >= 1,
    ;
    assert(raw <= a) by (nonlinear_arith)
        requires
            raw * d < post * n + d,
            post == a - f,
            f * n >= a * b,
            d == n - b,
            d > 0,
    ;
    assert(raw >= a - 1) by (nonlinear_arith)
        requires
            raw * d >= post * n,
            post == a - f,
            f * n < a * b + n,
            d == n - b,
            b <= 5_000,
            n == 10_000,
    ;
    assert(post * n >= post * d) by (nonlinear_arith)
        requires
            d == n - b,
            b >= 1,
            post >= 1,
    ;
    assert((raw - post) * d >= 0) by (nonlinear_arith)
        requires
            raw * d >= post * n,
            post * n >= post * d,
    ;
    assert(raw >= post) by (nonlinear_arith)
        requires
            (raw - post) * d >= 0,
            d >= 1,
    ;
    assert(pre_fee_amount_of(terms, post) == Some(raw));
    let g = (raw * b + n - 1) / n;
    assert(g * n >= raw * b && g * n < raw * b + n && g >= 0) by (nonlinear_arith)
        requires
            g == (raw * b + n - 1) / n,
            n == 10_000,
            raw >= 0,
            b >= 0,
    ;
    assert(g <= f) by (nonlinear_arith)
        requires
            g * n < raw * b + n,
            f * n >= a * b,
            raw <= a,
            b >= 0,
            n == 10_000,
    ;
    assert(raw * b >= (a - 1) * b) by (nonlinear_arith)
        requires
            raw >= a - 1,
            b >= 0,
    ;
    assert((a - 1) * b == a * b - b) by (nonlinear_arith);
    assert((f - 1 - g) * n < n) by (nonlinear_arith)
        requires
            g * n >= raw * b,
            raw * b >= a * b - b,
            f * n < a * b + n,
            b <= 5_000,
            n == 10_000,
    ;
    assert(g >= f - 1) by (nonlinear_arith)
        requires
            (f - 1 - g) * n < n,
            n == 10_000,
    ;
    if raw == 0 {
        assert(transfer_fee_of(terms, raw) == Some(0int));
    } else {
        assert(transfer_fee_of(terms, raw) == Some(g));
    }
    assert(inverse_fee_of(terms, post) == Some(if raw == 0 { 0 } else { g }));
}


/// The basis-point fee on `amount`, rounded up, before the maximum fee caps it.
pub open spec fn uncapped_fee_of(amount: int, basis_points: int) -> int {
    (amount * basis_points + one_in_basis_points() - 1) / one_in_basis_points()
}

proof fn lemma_uncapped_fee_bounds(amount: int, basis_points: int)
    requires
        amount >= 0,
        basis_points >= 0,
    ensures
        uncapped_fee_of(amount, basis_points) >= 0,
        uncapped_fee_of(amount, basis_points) * 10_000 >= amount * basis_points,
        uncapped_fee_of(amount, basis_points) * 10_000 < amount * basis_points + 10_000,
        amount == 0 ==> uncapped_fee_of(amount, basis_points) == 0,
{
    let f = uncapped_fee_of(amount, basis_points);
    assert(f >= 0 && f * 10_000 >= amount * basis_points && f * 10_000 < amount * basis_points
        + 10_000) by (nonlinear_arith)
        requires
            f == (amount * basis_points + 10_000 - 1) / 10_000,
            amount >= 0,
            basis_points >= 0,
    ;
    if amount == 0 {
        assert(amount * basis_points == 0) by (nonlinear_arith)
            requires
                amount == 0,
        ;
        assert((10_000int - 1) / 10_000 == 0);
    }
}

/// Rounding up each of two parts costs at least, and at most one token more
/// than, rounding up their sum.
proof fn lemma_uncapped_fee_split(a: int, c: int, basis_points: int)
    requires
        a >= 0,
        c >= 0,
        basis_points >= 0,
    ensures
        uncapped_fee_of(a, basis_points) + uncapped_fee_of(c, basis_points) >= uncapped_fee_of(
            a + c,
            basis_points,
        ),
        uncapped_fee_of(a, basis_points) + uncapped_fee_of(c, basis_points) <= uncapped_fee_of(
            a + c,
            basis_points,
        ) + 1,
{
    lemma_uncapped_fee_bounds(a, basis_points);
    lemma_uncapped_fee_bounds(c, basis_points);
    lemma_uncapped_fee_bounds(a + c, basis_points);
    let fa = uncapped_fee_of(a, basis_points);
    let fc = uncapped_fee_of(c, basis_points);
    let ft = uncapped_fee_of(a + c, basis_points);
    assert(a * basis_points + c * basis_points == (a + c) * basis_points) by (nonlinear_arith);
    assert(fa + fc >= ft) by (nonlinear_arith)
        requires
            (fa + fc) * 10_000 >= (a + c) * basis_points,
            ft * 10_000 < (a + c) * basis_points + 10_000,
    ;
    assert(fa + fc <= ft + 1) by (nonlinear_arith)
        requires
            (fa + fc) * 10_000 < (a + c) * basis_points + 20_000,
            ft * 10_000 >= (a + c) * basis_points,
    ;
}

/// The fee on a transfer, where it is computed, is the uncapped fee capped
/// at the maximum fee (nothing at a zero rate).
proof fn lemma_transfer_fee_shape(terms: TransferFeeTerms, amount: int)
    requires
        amount >= 0,
        transfer_fee_of(terms, amount) is Some,
    ensures
        transfer_fee_of(terms, amount)->Some_0 == if terms.transfer_fee_basis_points == 0 {
            0
        } else if uncapped_fee_of(amount, terms.transfer_fee_basis_points as int)
            < terms.maximum_fee {
            uncapped_fee_of(amount, terms.transfer_fee_basis_points as int)
        } else {
            terms.maximum_fee as int
        },
{
    lemma_uncapped_fee_bounds(amount, terms.transfer_fee_basis_points as int);
}

/// The (up to) three transfers of a swap input, to the vault, to the owner
/// fee vault and to the host, together pay at least the transfer fee that a
/// single transfer of the whole input would; where the maximum fee does not
/// bind, they pay at most one token more per extra transfer: two with a host
/// fee account, one without.
pub proof fn lemma_split_input_transfer_fees(
    schedule: TransferFeeSchedule,
    epoch: u64,
    fees: Fees,
    amount_in: u64,
    host_fee: bool,
)
    requires
        sub_input_transfer_fees_of(Some(schedule), epoch as int, fees, amount_in as int, host_fee)
            is Ok,
        transfer_fee_of(terms_for_epoch(schedule, epoch as int), amount_in as int) is Some,
    ensures
        ({
            let received = sub_input_transfer_fees_of(
                Some(schedule),
                epoch as int,
                fees,
                amount_in as int,
                host_fee,
            )->Ok_0;
            let terms = terms_for_epoch(schedule, epoch as int);
            let single = transfer_fee_of(terms, amount_in as int)->Some_0;
            &&& amount_in - received >= single
            &&& terms.maximum_fee == u64::MAX ==> amount_in - received <= single + if host_fee {
                2int
            } else {
                1int
            }
        }),
{
    let terms = terms_for_epoch(schedule, epoch as int);
    let bps = terms.transfer_fee_basis_points as int;
    let cap = terms.maximum_fee as int;
    let a = amount_in as int;
    let ohf = fees.owner_trading_fee_of(a)->Some_0;
    let (host, htf) = host_part_of(terms, fees, ohf, host_fee)->Ok_0;
    let otf = transfer_fee_of(terms, ohf - host)->Some_0;
    let vtf = transfer_fee_of(terms, a - ohf)->Some_0;
    let owner_amount = fees.owner_trade_fee_numerator as int;
    assert(ohf >= 0) by {
        if owner_amount != 0 && a != 0 && a * owner_amount <= u128_max()
            && fees.owner_trade_fee_denominator != 0 {
            assert(a * owner_amount / (fees.owner_trade_fee_denominator as int) >= 0)
                by (nonlinear_arith)
                requires
                    a >= 0,
                    owner_amount >= 0,
                    fees.owner_trade_fee_denominator > 0,
            ;
        }
    }
    if host_fee {
        let hn = fees.host_fee_numerator as int;
        if hn != 0 && ohf != 0 && fees.host_fee_denominator != 0 {
            assert(ohf * hn / (fees.host_fee_denominator as int) >= 0) by (nonlinear_arith)
                requires
                    ohf >= 0,
                    hn >= 0,
                    fees.host_fee_denominator > 0,
            ;
        }
        assert(host >= 0);
        assert(transfer_fee_of(terms, host) == Some(htf));
    } else {
        assert(host == 0 && htf == 0);
    }
    assert(0 <= host <= ohf <= a);
    let received = a - vtf - otf - htf;
    assert(sub_input_transfer_fees_of(Some(schedule), epoch as int, fees, a, host_fee)
        == Ok::<u64, SwapError>(received as u64));
    let single = transfer_fee_of(terms, a)->Some_0;
    if bps == 0 {
        assert(single == 0 && vtf == 0 && otf == 0 && htf == 0);
        return;
    }
    let rv = uncapped_fee_of(a - ohf, bps);
    let ro = uncapped_fee_of(ohf - host, bps);
    let rh = uncapped_fee_of(host, bps);
    let rt = uncapped_fee_of(a, bps);
    lemma_uncapped_fee_bounds(a - ohf, bps);
    lemma_uncapped_fee_bounds(ohf - host, bps);
    lemma_uncapped_fee_bounds(host, bps);
    lemma_uncapped_fee_split(ohf - host, host, bps);
    lemma_uncapped_fee_split(a - ohf, ohf, bps);
    assert(a - ohf + ohf == a);
    assert(ohf - host + host == ohf);
    lemma_transfer_fee_shape(terms, a - ohf);
    lemma_transfer_fee_shape(terms, ohf - host);
    lemma_transfer_fee_shape(terms, host);
    lemma_transfer_fee_shape(terms, a);
    assert(vtf == if rv < cap { rv } else { cap });
    assert(otf == if ro < cap { ro } else { cap });
    assert(htf == if rh < cap { rh } else { cap });
    assert(single == if rt < cap { rt } else { cap });
    assert(rv + ro + rh >= rt);
    assert(rv + ro + rh <= rt + 2);
    if !host_fee {
        assert(rh == 0);
    }
}

} // verus!

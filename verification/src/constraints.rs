//! Various constraints as required for production environments

use vstd::prelude::*;

use crate::curve::base::{CurveType, SwapCurve};
use crate::curve::fees::Fees;
use crate::error::SwapError;
use crate::transfer_fee::{mint_extension_types_of, unpack_extension_types};

verus! {

/// Encodes fee constraints, used in multihost environments where the program
/// may be used by multiple frontends, to ensure that proper fees are being
/// assessed.
pub struct SwapConstraints<'a> {
    /// Owner of the program, as a base-58 public key
    pub owner_key: &'a str,
    /// Valid curve types
    pub valid_curve_types: &'a [CurveType],
    /// Valid fees
    pub fees: &'a Fees,
    /// token_2022 trading token blocked extensions, by their `u16` numbers
    pub blocked_trading_token_extensions: &'a [u16],
}

/// The 32 bytes of the public key that the base-58 text `text` spells, if any.
pub uninterp spec fn pubkey_of_str(text: Seq<char>) -> Option<Seq<u8>>;

/// `Pubkey::from_str`.
///
/// Trusted: the result is named `pubkey_of_str` of the text.
#[verifier::external_body]
pub(crate) fn parse_pubkey(text: &str) -> (r: Option<[u8; 32]>)
    ensures
        match r {
            Some(k) => pubkey_of_str(text@) == Some(k@),
            None => pubkey_of_str(text@) is None,
        },
{
    text.parse::<solana_program::pubkey::Pubkey>().ok().map(|k| k.to_bytes())
}

/// Whether the fees are at least the constrained ones, with the same
/// denominators and the same host fee.
pub open spec fn fees_meet(fees: Fees, required: Fees) -> bool {
    &&& fees.trade_fee_numerator >= required.trade_fee_numerator
    &&& fees.trade_fee_denominator == required.trade_fee_denominator
    &&& fees.owner_trade_fee_numerator >= required.owner_trade_fee_numerator
    &&& fees.owner_trade_fee_denominator == required.owner_trade_fee_denominator
    &&& fees.owner_withdraw_fee_numerator >= required.owner_withdraw_fee_numerator
    &&& fees.owner_withdraw_fee_denominator == required.owner_withdraw_fee_denominator
    &&& fees.host_fee_numerator == required.host_fee_numerator
    &&& fees.host_fee_denominator == required.host_fee_denominator
}

/// Whether none of `types` is among `blocked`.
pub open spec fn none_blocked(types: Seq<u16>, blocked: Seq<u16>) -> bool {
    forall|j: int| 0 <= j < types.len() ==> !blocked.contains(#[trigger] types[j])
}

/// The check of a trading mint's extensions, given by the mint account's
/// bytes, against the blocked ones.
pub open spec fn extensions_check_of(mint_data: Seq<u8>, blocked: Seq<u16>) -> Result<(), SwapError> {
    match mint_extension_types_of(mint_data) {
        Err(code) => Err(SwapError::TokenProgram(code)),
        Ok(types) => if none_blocked(types, blocked) {
            Ok(())
        } else {
            Err(SwapError::InvalidTokenExtension)
        },
    }
}

impl<'a> SwapConstraints<'a> {
    /// Checks that the provided admin is valid for the given constraints
    pub fn validate_admin(&self, admin: &[u8; 32]) -> (r: Result<(), SwapError>)
        ensures
            r is Ok <==> pubkey_of_str(self.owner_key@) == Some(admin@),
            r is Err ==> r->Err_0 == SwapError::InvaliPoolAdmin,
    {
        let owner_key = match parse_pubkey(self.owner_key) {
            Some(k) => k,
            None => return Err(SwapError::InvaliPoolAdmin),
        };
        let mut i: usize = 0;
        while i < 32
            invariant
                i <= 32,
                forall|j: int| 0 <= j < i ==> owner_key@[j] == admin@[j],
                pubkey_of_str(self.owner_key@) == Some(owner_key@),
            decreases 32 - i,
        {
            if owner_key[i] != admin[i] {
                proof {
                    assert(owner_key@[i as int] != admin@[i as int]);
                    assert(owner_key@ != admin@);
                }
                return Err(SwapError::InvaliPoolAdmin);
            }
            i = i + 1;
        }
        proof {
            assert(owner_key@ =~= admin@);
        }
        Ok(())
    }

    /// Checks that the provided curve is valid for the given constraints
    pub fn validate_curve(&self, swap_curve: &SwapCurve) -> (r: Result<(), SwapError>)
        ensures
            r is Ok <==> self.valid_curve_types@.contains(swap_curve.curve_type),
            r is Err ==> r->Err_0 == SwapError::UnsupportedCurveType,
    {
        let mut i: usize = 0;
        while i < self.valid_curve_types.len()
            invariant
                i <= self.valid_curve_types@.len(),
                forall|j: int| 0 <= j < i ==> self.valid_curve_types@[j] != swap_curve.curve_type,
            decreases self.valid_curve_types@.len() - i,
        {
            if self.valid_curve_types[i] == swap_curve.curve_type {
                proof {
                    assert(self.valid_curve_types@[i as int] == swap_curve.curve_type);
                }
                return Ok(());
            }
            i = i + 1;
        }
        Err(SwapError::UnsupportedCurveType)
    }

    /// Checks that the provided fees are valid for the given constraints
    pub fn validate_fees(&self, fees: &Fees) -> (r: Result<(), SwapError>)
        ensures
            r is Ok <==> fees_meet(*fees, *self.fees),
            r is Err ==> r->Err_0 == SwapError::InvalidFee,
    {
        if fees.trade_fee_numerator >= self.fees.trade_fee_numerator
            && fees.trade_fee_denominator == self.fees.trade_fee_denominator
            && fees.owner_trade_fee_numerator >= self.fees.owner_trade_fee_numerator
            && fees.owner_trade_fee_denominator == self.fees.owner_trade_fee_denominator
            && fees.owner_withdraw_fee_numerator >= self.fees.owner_withdraw_fee_numerator
            && fees.owner_withdraw_fee_denominator == self.fees.owner_withdraw_fee_denominator
            && fees.host_fee_numerator == self.fees.host_fee_numerator
            && fees.host_fee_denominator == self.fees.host_fee_denominator {
            Ok(())
        } else {
            Err(SwapError::InvalidFee)
        }
    }

    /// Checks that no extension of a trading token mint, given by the mint
    /// account's bytes, is blocked
    pub fn validate_token_2022_trading_token_extensions(&self, mint_data: &[u8]) -> (r: Result<
        (),
        SwapError,
    >)
        ensures
            r == extensions_check_of(mint_data@, self.blocked_trading_token_extensions@),
    {
        let types = match unpack_extension_types(mint_data) {
            Ok(t) => t,
            Err(code) => return Err(SwapError::TokenProgram(code)),
        };
        let mut i: usize = 0;
        while i < types.len()
            invariant
                i <= types@.len(),
                mint_extension_types_of(mint_data@) == Ok::<Seq<u16>, u64>(types@),
                forall|j: int|
                    0 <= j < i ==> !self.blocked_trading_token_extensions@.contains(
                        #[trigger] types@[j],
                    ),
            decreases types@.len() - i,
        {
            let mint_ext = types[i];
            let mut k: usize = 0;
            while k < self.blocked_trading_token_extensions.len()
                invariant
                    k <= self.blocked_trading_token_extensions@.len(),
                    i < types@.len(),
                    mint_ext == types@[i as int],
                    mint_extension_types_of(mint_data@) == Ok::<Seq<u16>, u64>(types@),
                    forall|m: int|
                        0 <= m < k ==> self.blocked_trading_token_extensions@[m] != mint_ext,
                decreases self.blocked_trading_token_extensions@.len() - k,
            {
                if self.blocked_trading_token_extensions[k] == mint_ext {
                    proof {
                        assert(self.blocked_trading_token_extensions@[k as int] == mint_ext);
                        assert(self.blocked_trading_token_extensions@.contains(types@[i as int]));
                        assert(!none_blocked(types@, self.blocked_trading_token_extensions@));
                    }
                    return Err(SwapError::InvalidTokenExtension);
                }
                k = k + 1;
            }
            i = i + 1;
        }
        Ok(())
    }
}

} // verus!

use hyperplane::curve::fees::Fees;
use hyperplane::error::SwapError;
use hyperplane::transfer_fee::{
    add_inverse_transfer_fee, add_inverse_transfer_fee_for_schedule, mint_transfer_fee_schedule,
    sub_input_transfer_fees, sub_transfer_fee, sub_transfer_fee_for_schedule,
    TransferFeeSchedule, TransferFeeTerms,
};
use solana_program::program_option::COption;
use solana_program::program_error::ProgramError;
use solana_program::pubkey::Pubkey;
use spl_token_2022::extension::transfer_fee::{TransferFee, TransferFeeConfig};
use spl_token_2022::extension::{ExtensionType, StateWithExtensionsMut};
use spl_token_2022::state::Mint;

const EPOCH: u64 = 0;

fn mint_with_transfer_fee(mint_data: &mut [u8], transfer_fee_bps: u16) {
    let mut mint = StateWithExtensionsMut::<Mint>::unpack_uninitialized(mint_data).unwrap();
    let extension = mint.init_extension::<TransferFeeConfig>(true).unwrap();
    extension.withheld_amount = 0u64.into();

    let transfer_fee = TransferFee {
        epoch: EPOCH.into(),
        transfer_fee_basis_points: transfer_fee_bps.into(),
        maximum_fee: u64::MAX.into(),
    };
    extension.older_transfer_fee = transfer_fee;
    extension.newer_transfer_fee = transfer_fee;

    mint.base.decimals = 6;
    mint.base.is_initialized = true;
    mint.base.mint_authority = COption::Some(Pubkey::new_unique());
    mint.pack_base();
    mint.init_account_type().unwrap();
}

fn mint_with_fee_data() -> Vec<u8> {
    vec![0; ExtensionType::try_calculate_account_len::<Mint>(&[ExtensionType::TransferFeeConfig]).unwrap()]
}

fn mint_data_with_fee(transfer_fee_bps: u16) -> Vec<u8> {
    let mut mint_data = mint_with_fee_data();
    mint_with_transfer_fee(&mut mint_data, transfer_fee_bps);
    mint_data
}

#[test]
pub fn test_sub_transfer_fee_when_no_transfer_fees() {
    let mint_data = mint_data_with_fee(0);
    let amount = sub_transfer_fee(&mint_data, EPOCH, 10_000).unwrap();
    assert_eq!(amount, 10_000);
}

#[test]
pub fn test_sub_transfer_fee_when_10_bps_transfer_fee() {
    let mint_data = mint_data_with_fee(10);
    let amount = sub_transfer_fee(&mint_data, EPOCH, 10_000).unwrap();
    assert_eq!(amount, 9990);
}

#[test]
pub fn test_sub_transfer_fee_rounds_up_when_small_fee() {
    let mint_data = mint_data_with_fee(10);
    let amount = sub_transfer_fee(&mint_data, EPOCH, 100).unwrap();
    assert_eq!(amount, 99);
}

#[test]
pub fn test_add_inverse_transfer_fee_when_no_transfer_fees() {
    let mint_data = mint_data_with_fee(0);
    let amount = add_inverse_transfer_fee(&mint_data, EPOCH, 10_000).unwrap();
    assert_eq!(amount, 10_000);
}

#[test]
pub fn test_add_inverse_transfer_fee_when_10_bps_transfer_fee() {
    let mint_data = mint_data_with_fee(10);
    let amount = add_inverse_transfer_fee(&mint_data, EPOCH, 9990).unwrap();
    assert_eq!(amount, 10_000);
}

#[test]
pub fn test_add_inverse_transfer_fee_rounds_up_when_small_fee() {
    let mint_data = mint_data_with_fee(10);
    let amount = add_inverse_transfer_fee(&mint_data, EPOCH, 100).unwrap();
    assert_eq!(amount, 101);
}

#[test]
pub fn test_sub_then_add_inverse_transfer_fee_when_10_bps_transfer_fee() {
    let mint_data = mint_data_with_fee(10);
    let receive_amount = sub_transfer_fee(&mint_data, EPOCH, 10_000_000).unwrap();
    let pre_fee_amount = add_inverse_transfer_fee(&mint_data, EPOCH, receive_amount).unwrap();
    assert_eq!(pre_fee_amount, 10_000_000);
}

#[test]
pub fn test_sub_input_transfer_fee_when_no_transfer_fees_or_protocol_fees() {
    let mint_data = mint_data_with_fee(0);
    let amount = sub_input_transfer_fees(&mint_data, EPOCH, &Fees::default(), 10_000, false).unwrap();
    assert_eq!(amount, 10_000);
}

#[test]
pub fn test_sub_input_transfer_fee_when_10bps_transfer_fees_and_no_protocol_fees() {
    let mint_data = mint_data_with_fee(10);
    let amount = sub_input_transfer_fees(&mint_data, EPOCH, &Fees::default(), 10_000, false).unwrap();
    // 1 transfer fee of 10 bps
    assert_eq!(amount, 9990);
}

#[test]
pub fn test_sub_input_transfer_fee_when_10bps_transfer_fees_and_owner_protocol_fees() {
    let mint_data = mint_data_with_fee(10);
    let fees = Fees {
        owner_trade_fee_numerator: 10,
        owner_trade_fee_denominator: 10_000,
        ..Default::default()
    };
    let amount = sub_input_transfer_fees(&mint_data, EPOCH, &fees, 10_000_000, false).unwrap();
    // Raw owner fee amount is 10_000 (10 bps of 10M)
    // Raw owner transfer fee is 10 (10 bps of 10_000)
    // Vault transfer amount is 9_990_000 (10M - 10_000)
    // vault transfer fee is 9990 (10 bps of 9_990_000)
    assert_eq!(amount, 9_990_000);
}

#[test]
pub fn test_sub_input_transfer_fee_when_10bps_transfer_fees_and_owner_and_host_protocol_fees() {
    let mint_data = mint_data_with_fee(10);
    let fees = Fees {
        owner_trade_fee_numerator: 10,
        owner_trade_fee_denominator: 10_000,
        host_fee_numerator: 10,
        host_fee_denominator: 10_000,
        ..Default::default()
    };
    let amount =
        sub_input_transfer_fees(&mint_data, EPOCH, &fees, 100_000_000_000_000, true).unwrap();
    // 3 transfer fees equal to 100_000_000_000 total (99_900_000_000 + 99_990_000 + 10_000)
    assert_eq!(amount, 99_900_000_000_000);
}

#[test]
pub fn test_sub_input_transfer_fee_when_10bps_transfer_fees_and_owner_and_small_host_protocol_fees() {
    let mint_data = mint_data_with_fee(10);
    let fees = Fees {
        owner_trade_fee_numerator: 10,
        owner_trade_fee_denominator: 10_000,
        host_fee_numerator: 10,
        host_fee_denominator: 10_000,
        ..Default::default()
    };
    let amount = sub_input_transfer_fees(&mint_data, EPOCH, &fees, 100_000_000, true).unwrap();
    // 3 transfer fees equal to 100_001 total (99_900 + 100 + 1)
    assert_eq!(amount, 99_899_999);
}

#[test]
pub fn test_sub_input_transfer_fee_when_10bps_transfer_fees_and_both_owner_and_host_protocol_fees_small(
) {
    let mint_data = mint_data_with_fee(10);
    let fees = Fees {
        owner_trade_fee_numerator: 10,
        owner_trade_fee_denominator: 10_000,
        host_fee_numerator: 10,
        host_fee_denominator: 10_000,
        ..Default::default()
    };
    let amount = sub_input_transfer_fees(&mint_data, EPOCH, &fees, 10_000_000, true).unwrap();
    // 3 transfer fees equal to 10_001 total (9990 + 10 + 1)
    assert_eq!(amount, 9_989_999);
}

#[test]
fn sub_then_add_inverse_transfer_fee_is_same_or_one_less() {
    for bps in [1u16, 10, 100, 2_500, 5_000] {
        let mint_data = mint_data_with_fee(bps);
        for amount in [1u64, 2, 3, 99, 100, 101, 9_999, 10_000, 123_457, 4_294_967_295] {
            let receive_amount = sub_transfer_fee(&mint_data, EPOCH, amount).unwrap();
            let pre_fee_amount = add_inverse_transfer_fee(&mint_data, EPOCH, receive_amount).unwrap();
            assert!(pre_fee_amount <= amount);
            assert!(amount - pre_fee_amount <= 1, "bps={} amount={} pre_fee_amount={}", bps, amount, pre_fee_amount);
        }
    }
}

#[test]
fn transfer_fee_schedule_is_read_from_mint_data() {
    let mint_data = mint_data_with_fee(10);
    let schedule = mint_transfer_fee_schedule(&mint_data).unwrap().unwrap();
    assert_eq!(schedule.newer.transfer_fee_basis_points, 10);
    assert_eq!(schedule.newer.maximum_fee, u64::MAX);
    assert_eq!(
        mint_transfer_fee_schedule(&[0u8; 3]),
        Err(SwapError::TokenProgram(u64::from(ProgramError::InvalidAccountData)))
    );
}

#[test]
fn transfer_fee_follows_epoch() {
    let schedule = TransferFeeSchedule {
        older: TransferFeeTerms {
            epoch: 0,
            maximum_fee: u64::MAX,
            transfer_fee_basis_points: 100,
        },
        newer: TransferFeeTerms {
            epoch: 10,
            maximum_fee: 5,
            transfer_fee_basis_points: 1_000,
        },
    };
    // 1% before epoch 10
    assert_eq!(sub_transfer_fee_for_schedule(Some(schedule), 9, 1_000), Ok(990));
    // 10%, capped at 5, from epoch 10
    assert_eq!(sub_transfer_fee_for_schedule(Some(schedule), 10, 1_000), Ok(995));
    assert_eq!(add_inverse_transfer_fee_for_schedule(Some(schedule), 10, 995), Ok(1_000));
    assert_eq!(sub_transfer_fee_for_schedule(None, 10, 1_000), Ok(1_000));
}

#[test]
fn split_input_transfer_fees_stay_within_one_rounding_per_transfer() {
    let fees = Fees {
        owner_trade_fee_numerator: 3,
        owner_trade_fee_denominator: 1_000,
        host_fee_numerator: 20,
        host_fee_denominator: 100,
        ..Fees::default()
    };
    for bps in [1u16, 10, 250] {
        let mint_data = mint_data_with_fee(bps);
        for amount in [1u64, 7, 333, 1_001, 99_999, 12_345_678] {
            let single = amount - sub_transfer_fee(&mint_data, EPOCH, amount).unwrap();
            for host in [false, true] {
                let received = sub_input_transfer_fees(&mint_data, EPOCH, &fees, amount, host);
                if let Ok(received) = received {
                    let paid = amount - received;
                    assert!(paid >= single, "bps={bps} amount={amount}");
                    assert!(paid <= single + if host { 2 } else { 1 }, "bps={bps} amount={amount}");
                }
            }
        }
    }
}

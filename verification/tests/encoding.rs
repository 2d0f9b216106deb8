use anchor_lang::AnchorSerialize;
use continuation_router::action::process_action;
use continuation_router::action_type::{ActionType, TryFromPrimitiveError};
use continuation_router::codec::{put_key, put_u16, put_u64};
use continuation_router::continuation::Continuation;
use continuation_router::error::{ErrorCode, FrameworkError, ERROR_CODE_OFFSET};
use continuation_router::event::{SwapActionEvent, SwapCompleteEvent};
use continuation_router::pubkey::{Pubkey, PUBKEY_BYTES};
use continuation_router::token_amount::TokenAmount;

fn k(fill: u8) -> Pubkey {
    Pubkey::new_from_array([fill; 32])
}

fn host_key(fill: u8) -> solana_program::pubkey::Pubkey {
    solana_program::pubkey::Pubkey::new_from_array([fill; 32])
}

fn sample() -> Continuation {
    let mut c = Continuation::default();
    c.owner = k(1);
    c.payer = k(2);
    c.initial_amount_in = TokenAmount::new(k(3), 1000);
    c.input = k(4);
    c.amount_in = TokenAmount::new(k(5), 0x0102_0304_0506_0708);
    c.steps_left = 0x0a0b;
    c.output = k(6);
    c.output_initial_balance = u64::MAX;
    c.minimum_amount_out = TokenAmount::new(k(7), 990);
    c.nonce = 254;
    c
}

#[test]
fn pubkey_keeps_its_bytes() {
    let mut bytes = [0u8; 32];
    for (i, b) in bytes.iter_mut().enumerate() {
        *b = i as u8;
    }
    let key = Pubkey::new_from_array(bytes);
    assert_eq!(key.to_bytes(), bytes);
    assert_eq!(PUBKEY_BYTES, 32);
    assert_eq!(Pubkey::default().to_bytes(), [0u8; 32]);
    assert_eq!(key, Pubkey::new_from_array(bytes));
    bytes[31] = 0;
    assert_ne!(key, Pubkey::new_from_array(bytes));
}

#[test]
fn numbers_are_written_least_significant_byte_first() {
    let mut out = vec![9u8];
    put_u16(&mut out, 0x0102);
    put_u64(&mut out, 0x0102_0304_0506_0708);
    assert_eq!(out, vec![9, 2, 1, 8, 7, 6, 5, 4, 3, 2, 1]);
}

#[test]
fn numbers_are_written_as_the_host_writes_them() {
    for x in [0u64, 1, 255, 256, 990, 1000, 0xffff_ffff, u64::MAX - 1, u64::MAX] {
        let mut out = Vec::new();
        put_u64(&mut out, x);
        assert_eq!(out, x.try_to_vec().unwrap());
        assert_eq!(out, x.to_le_bytes().to_vec());
        let mut encoded = vec![0u8; 32];
        encoded.extend_from_slice(&out);
        assert_eq!(TokenAmount::deserialize(&encoded).unwrap().amount, x);
    }
    for x in [0u16, 1, 2, 255, 256, 0xabcd, u16::MAX] {
        let mut out = Vec::new();
        put_u16(&mut out, x);
        assert_eq!(out, x.try_to_vec().unwrap());
        let mut encoded = vec![0u8; 259];
        encoded[176..178].copy_from_slice(&out);
        assert_eq!(Continuation::deserialize(&encoded).unwrap().steps_left, x);
    }
}

#[test]
fn keys_are_written_as_their_bytes() {
    let mut out = vec![1u8, 2];
    put_key(&mut out, &k(7));
    assert_eq!(out.len(), 34);
    assert_eq!(&out[2..], &[7u8; 32]);
    assert_eq!(out[2..].to_vec(), host_key(7).try_to_vec().unwrap());
    out.extend_from_slice(&[0u8; 8]);
    assert_eq!(TokenAmount::deserialize(&out[2..]).unwrap().mint, k(7));
}

#[test]
fn token_amount_len_is_forty() {
    assert_eq!(TokenAmount::LEN, 40);
}

#[test]
fn token_amount_is_written_as_mint_then_amount() {
    let amount = TokenAmount::new(k(3), 1000);
    let mut out = Vec::new();
    amount.serialize(&mut out);
    assert_eq!(out.len(), TokenAmount::LEN);
    assert_eq!(out, (host_key(3), 1000u64).try_to_vec().unwrap());
    assert_eq!(TokenAmount::deserialize(&out), Some(amount));
}

#[test]
fn token_amount_needs_forty_bytes() {
    let mut out = Vec::new();
    TokenAmount::new(k(3), 1000).serialize(&mut out);
    assert_eq!(TokenAmount::deserialize(&out[..39]), None);
    assert_eq!(TokenAmount::deserialize(&[]), None);
    out.push(77);
    assert_eq!(TokenAmount::deserialize(&out), Some(TokenAmount::new(k(3), 1000)));
}

#[test]
fn token_amount_default_is_nothing() {
    let d = TokenAmount::default();
    assert_eq!(d.mint, Pubkey::default());
    assert_eq!(d.amount, 0);
    assert_ne!(d, TokenAmount::new(Pubkey::default(), 1));
    assert_ne!(d, TokenAmount::new(k(1), 0));
}

#[test]
fn action_type_codes() {
    assert_eq!(u16::from(ActionType::SSSwap), 0);
    assert_eq!(u16::from(ActionType::SSWithdrawOne), 1);
    assert_eq!(u16::from(ActionType::SSDepositA), 2);
    assert_eq!(u16::from(ActionType::SSDepositB), 3);
    assert_eq!(u16::from(ActionType::ADWithdraw), 10);
    assert_eq!(u16::from(ActionType::ADDeposit), 11);
}

#[test]
fn action_type_from_its_code() {
    assert_eq!(ActionType::try_from_primitive(0), Ok(ActionType::SSSwap));
    assert_eq!(ActionType::try_from_primitive(1), Ok(ActionType::SSWithdrawOne));
    assert_eq!(ActionType::try_from_primitive(2), Ok(ActionType::SSDepositA));
    assert_eq!(ActionType::try_from_primitive(3), Ok(ActionType::SSDepositB));
    assert_eq!(ActionType::try_from_primitive(10), Ok(ActionType::ADWithdraw));
    assert_eq!(ActionType::try_from_primitive(11), Ok(ActionType::ADDeposit));
    for number in [4u16, 5, 9, 12, 255, u16::MAX] {
        assert_eq!(
            ActionType::try_from_primitive(number),
            Err(TryFromPrimitiveError { number })
        );
    }
}

#[test]
fn action_type_is_written_as_its_place_in_the_list() {
    let kinds = [
        ActionType::SSSwap,
        ActionType::SSWithdrawOne,
        ActionType::SSDepositA,
        ActionType::SSDepositB,
        ActionType::ADWithdraw,
        ActionType::ADDeposit,
    ];
    for (place, kind) in kinds.iter().enumerate() {
        let mut out = Vec::new();
        kind.serialize(&mut out);
        assert_eq!(out, vec![place as u8]);
        assert_eq!(ActionType::deserialize(&out), Some(*kind));
    }
    assert_eq!(ActionType::deserialize(&[6]), None);
    assert_eq!(ActionType::deserialize(&[10]), None);
    assert_eq!(ActionType::deserialize(&[255]), None);
    assert_eq!(ActionType::deserialize(&[]), None);
    assert_eq!(ActionType::deserialize(&[4, 99]), Some(ActionType::ADWithdraw));
}

#[test]
fn error_codes_count_up_from_the_offset() {
    assert_eq!(ERROR_CODE_OFFSET, 6000);
    assert_eq!(ERROR_CODE_OFFSET, anchor_lang::error::ERROR_CODE_OFFSET);
    assert_eq!(u32::from(ErrorCode::PathInputOutputMismatch), 6000);
    assert_eq!(u32::from(ErrorCode::TransitiveSwapCalculationError), 6001);
    assert_eq!(u32::from(ErrorCode::OverflowSwapResult), 6002);
    assert_eq!(u32::from(ErrorCode::BalanceLower), 6003);
    assert_eq!(u32::from(ErrorCode::ZeroSwap), 6004);
    assert_eq!(u32::from(ErrorCode::InputOwnerMismatch), 6005);
    assert_eq!(u32::from(ErrorCode::InputMintMismatch), 6006);
    assert_eq!(u32::from(ErrorCode::OutputOwnerMismatch), 6007);
    assert_eq!(u32::from(ErrorCode::NoMoreSteps), 6008);
    assert_eq!(u32::from(ErrorCode::InsufficientInputBalance), 6009);
    assert_eq!(u32::from(ErrorCode::EndIncomplete), 6010);
    assert_eq!(u32::from(ErrorCode::MinimumOutNotMet), 6011);
    assert_eq!(u32::from(ErrorCode::OutputMintMismatch), 6012);
}

#[test]
fn error_names_and_messages() {
    let all = [
        (ErrorCode::PathInputOutputMismatch, "PathInputOutputMismatch", "Path input does not match prior output."),
        (ErrorCode::TransitiveSwapCalculationError, "TransitiveSwapCalculationError", "Error in a transitive swap input/output calculation."),
        (ErrorCode::OverflowSwapResult, "OverflowSwapResult", "Swap result overflowed when checking balance difference."),
        (ErrorCode::BalanceLower, "BalanceLower", "Swap resulted in a balance lower than the original balance."),
        (ErrorCode::ZeroSwap, "ZeroSwap", "Cannot perform a zero swap."),
        (ErrorCode::InputOwnerMismatch, "InputOwnerMismatch", "Input owner does not match continuation owner."),
        (ErrorCode::InputMintMismatch, "InputMintMismatch", "Input mint does not match continuation input mint."),
        (ErrorCode::OutputOwnerMismatch, "OutputOwnerMismatch", "Output owner does not match continuation owner."),
        (ErrorCode::NoMoreSteps, "NoMoreSteps", "No more steps to process."),
        (ErrorCode::InsufficientInputBalance, "InsufficientInputBalance", "Insufficient input balance"),
        (ErrorCode::EndIncomplete, "EndIncomplete", "Not all steps were processed."),
        (ErrorCode::MinimumOutNotMet, "MinimumOutNotMet", "Minimum amount out not met."),
        (ErrorCode::OutputMintMismatch, "OutputMintMismatch", "Output mint does not match continuation output mint."),
    ];
    for (code, name, message) in all {
        assert_eq!(code.name(), name);
        assert_eq!(code.to_string(), message);
        assert_eq!(format!("{:?}", code), name);
    }
}

#[test]
fn continuation_len_is_the_sum_of_its_fields() {
    assert_eq!(Continuation::LEN, 32 * 2 + 40 + 32 + 40 + 2 + 32 + 8 + 40 + 1);
    assert_eq!(Continuation::LEN, 259);
}

#[test]
fn default_continuation_is_all_zero() {
    let mut out = Vec::new();
    Continuation::default().serialize(&mut out);
    assert_eq!(out, vec![0u8; 259]);
    assert_eq!(Continuation::deserialize(&out), Some(Continuation::default()));
}

#[test]
fn continuation_is_written_field_by_field() {
    let c = sample();
    let mut out = Vec::new();
    c.serialize(&mut out);
    let expected = (
        host_key(1),
        host_key(2),
        (host_key(3), 1000u64),
        host_key(4),
        (host_key(5), 0x0102_0304_0506_0708u64),
        0x0a0bu16,
        host_key(6),
        u64::MAX,
        (host_key(7), 990u64),
        254u8,
    )
        .try_to_vec()
        .unwrap();
    assert_eq!(out.len(), Continuation::LEN);
    assert_eq!(out, expected);
    assert_eq!(&out[176..178], &[0x0b, 0x0a]);
    assert_eq!(out[258], 254);
    assert_eq!(Continuation::deserialize(&out), Some(c));
}

#[test]
fn continuation_needs_all_its_bytes() {
    let mut out = Vec::new();
    sample().serialize(&mut out);
    assert_eq!(Continuation::deserialize(&out[..258]), None);
    assert_eq!(Continuation::deserialize(&[]), None);
    out.extend_from_slice(&[1, 2, 3]);
    assert_eq!(Continuation::deserialize(&out), Some(sample()));
}

#[test]
fn stored_continuation_carries_its_mark() {
    let c = sample();
    let mut out = Vec::new();
    c.try_serialize(&mut out);
    assert_eq!(Continuation::discriminator(), [99, 253, 111, 82, 70, 215, 234, 19]);
    assert_eq!(&out[..8], &[99, 253, 111, 82, 70, 215, 234, 19]);
    let mut plain = Vec::new();
    c.serialize(&mut plain);
    assert_eq!(&out[8..], &plain[..]);
    assert_eq!(out.len(), 8 + Continuation::LEN);
    assert_eq!(Continuation::try_deserialize(&out), Ok(c));
    assert_eq!(Continuation::try_deserialize_unchecked(&out), Ok(c));
}

#[test]
fn stored_continuation_is_refused_without_its_mark() {
    let mut out = Vec::new();
    sample().try_serialize(&mut out);
    assert_eq!(
        Continuation::try_deserialize(&out[..7]),
        Err(FrameworkError::AccountDiscriminatorNotFound)
    );
    assert_eq!(
        Continuation::try_deserialize(&[]),
        Err(FrameworkError::AccountDiscriminatorNotFound)
    );
    let mut other = out.clone();
    other[7] ^= 1;
    assert_eq!(
        Continuation::try_deserialize(&other),
        Err(FrameworkError::AccountDiscriminatorMismatch)
    );
    assert_eq!(Continuation::try_deserialize_unchecked(&other), Ok(sample()));
    let zeroed = vec![0u8; 8 + Continuation::LEN];
    assert_eq!(
        Continuation::try_deserialize(&zeroed),
        Err(FrameworkError::AccountDiscriminatorMismatch)
    );
    assert_eq!(Continuation::try_deserialize_unchecked(&zeroed), Ok(Continuation::default()));
    assert_eq!(
        Continuation::try_deserialize(&out[..8 + 258]),
        Err(FrameworkError::AccountDidNotDeserialize)
    );
    assert_eq!(
        Continuation::try_deserialize_unchecked(&out[..8]),
        Err(FrameworkError::AccountDidNotDeserialize)
    );
    assert_eq!(
        Continuation::try_deserialize_unchecked(&out[..3]),
        Err(FrameworkError::AccountDidNotDeserialize)
    );
}

#[test]
fn swap_action_event_data() {
    let event = SwapActionEvent {
        action_type: ActionType::ADDeposit,
        owner: k(1),
        input_amount: TokenAmount::new(k(2), 1000),
        output_account: k(3),
        output_amount: TokenAmount::new(k(4), 1005),
    };
    let mut expected = vec![6u8, 114, 163, 169, 186, 233, 120, 250];
    expected.extend(
        (5u8, host_key(1), (host_key(2), 1000u64), host_key(3), (host_key(4), 1005u64))
            .try_to_vec()
            .unwrap(),
    );
    assert_eq!(event.data(), expected);
    assert_eq!(event.data().len(), 8 + 1 + 32 + 40 + 32 + 40);
    assert_eq!(SwapActionEvent::discriminator(), [6, 114, 163, 169, 186, 233, 120, 250]);
    let mut plain = vec![1u8];
    event.serialize(&mut plain);
    assert_eq!(&plain[1..], &expected[8..]);
    assert_eq!(SwapActionEvent::LEN, 145);
    assert_eq!(SwapActionEvent::deserialize(&expected[8..]), Some(event));
    assert_eq!(SwapActionEvent::deserialize(&expected[8..152]), None);
    assert_eq!(SwapActionEvent::deserialize(&[]), None);
    let mut other = expected[8..].to_vec();
    other[0] = 6;
    assert_eq!(SwapActionEvent::deserialize(&other), None);
    other[0] = 0;
    other.push(3);
    assert_eq!(
        SwapActionEvent::deserialize(&other),
        Some(SwapActionEvent { action_type: ActionType::SSSwap, ..event })
    );
}

#[test]
fn swap_complete_event_data() {
    let event = SwapCompleteEvent {
        owner: k(1),
        amount_in: TokenAmount::new(k(2), 1000),
        amount_out: TokenAmount::new(k(2), 995),
    };
    let mut expected = vec![95u8, 210, 213, 216, 161, 151, 251, 84];
    expected.extend(
        (host_key(1), (host_key(2), 1000u64), (host_key(2), 995u64)).try_to_vec().unwrap(),
    );
    assert_eq!(event.data(), expected);
    assert_eq!(SwapCompleteEvent::discriminator(), [95, 210, 213, 216, 161, 151, 251, 84]);
    let mut plain = Vec::new();
    event.serialize(&mut plain);
    assert_eq!(&plain[..], &expected[8..]);
    assert_eq!(SwapCompleteEvent::LEN, 112);
    assert_eq!(SwapCompleteEvent::deserialize(&plain), Some(event));
    assert_eq!(SwapCompleteEvent::deserialize(&plain[..111]), None);
    plain.push(1);
    assert_eq!(SwapCompleteEvent::deserialize(&plain), Some(event));
}

#[test]
fn process_action_request() {
    let data = process_action(10, 1000, 990);
    let mut expected = vec![214u8, 8, 4, 77, 180, 230, 207, 158];
    expected.extend((10u16, 1000u64, 990u64).try_to_vec().unwrap());
    assert_eq!(data, expected);
    assert_eq!(data.len(), 26);
}

use continuation_router::error::FrameworkError;
use continuation_router::instruction::{check_id, dispatch, entry, id, Instruction};
use continuation_router::pubkey::Pubkey;

const ID_BYTES: [u8; 32] = [
    176, 55, 206, 219, 51, 181, 150, 16, 146, 32, 78, 212, 183, 92, 196, 149, 1, 210, 194, 54,
    254, 181, 104, 251, 153, 43, 185, 47, 136, 71, 249, 27,
];

fn all() -> Vec<(Instruction, [u8; 8])> {
    vec![
        (Instruction::Idl, [64, 244, 188, 120, 167, 233, 105, 10]),
        (Instruction::CreateAtaIfNotExists, [106, 191, 176, 28, 152, 6, 176, 42]),
        (
            Instruction::Begin { amount_in: 1000, minimum_amount_out: 990, num_steps: 2 },
            [35, 150, 31, 42, 98, 141, 116, 108],
        ),
        (
            Instruction::BeginV2 { amount_in: 1000, minimum_amount_out: 990, num_steps: 2 },
            [241, 188, 208, 225, 254, 43, 38, 241],
        ),
        (Instruction::End, [180, 160, 249, 217, 194, 121, 70, 16]),
        (Instruction::SsSwap, [77, 170, 215, 67, 182, 47, 249, 225]),
        (Instruction::SsWithdrawOne, [101, 22, 53, 15, 236, 31, 246, 84]),
        (Instruction::SsDepositA, [38, 68, 65, 68, 218, 131, 229, 202]),
        (Instruction::SsDepositB, [109, 222, 231, 0, 90, 222, 238, 233]),
        (Instruction::AdWithdraw, [45, 60, 152, 4, 191, 159, 160, 243]),
        (Instruction::AdDeposit, [202, 34, 43, 64, 127, 205, 158, 75]),
        (Instruction::DummySwapToken, [49, 251, 76, 149, 148, 65, 229, 158]),
        (Instruction::DummySwapOutput, [34, 173, 34, 58, 60, 156, 226, 183]),
        (Instruction::DummySsSwap, [66, 165, 97, 157, 220, 76, 187, 75]),
    ]
}

#[test]
fn id_is_the_address_of_the_router() {
    assert_eq!(id().to_bytes(), ID_BYTES);
    assert!(check_id(&Pubkey::new_from_array(ID_BYTES)));
    let mut other = ID_BYTES;
    other[0] ^= 1;
    assert!(!check_id(&Pubkey::new_from_array(other)));
    assert!(!check_id(&Pubkey::default()));
}

#[test]
fn idl_tag_is_the_tag_of_the_framework() {
    assert_eq!(Instruction::Idl.tag(), anchor_lang::idl::IDL_IX_TAG.to_le_bytes());
}

#[test]
fn every_instruction_has_its_tag() {
    for (instruction, tag) in all() {
        assert_eq!(instruction.tag(), tag);
        assert_eq!(&instruction.data()[..8], &tag);
    }
}

#[test]
fn begin_data_is_tag_then_arguments() {
    let data = Instruction::Begin {
        amount_in: 1000,
        minimum_amount_out: 990,
        num_steps: 2,
    }
    .data();
    assert_eq!(
        data,
        vec![
            35, 150, 31, 42, 98, 141, 116, 108, 0xe8, 0x03, 0, 0, 0, 0, 0, 0, 0xde, 0x03, 0, 0,
            0, 0, 0, 0, 2, 0
        ]
    );
    let data = Instruction::BeginV2 {
        amount_in: u64::MAX,
        minimum_amount_out: 1,
        num_steps: 0x0102,
    }
    .data();
    assert_eq!(
        data,
        vec![
            241, 188, 208, 225, 254, 43, 38, 241, 255, 255, 255, 255, 255, 255, 255, 255, 1, 0,
            0, 0, 0, 0, 0, 0, 2, 1
        ]
    );
    assert_eq!(Instruction::End.data(), vec![180, 160, 249, 217, 194, 121, 70, 16]);
}

#[test]
fn dispatch_reads_back_what_data_wrote() {
    for (instruction, _) in all() {
        let mut data = instruction.data();
        assert_eq!(dispatch(&data), Ok(instruction));
        data.extend_from_slice(&[9, 9, 9]);
        assert_eq!(dispatch(&data), Ok(instruction));
    }
}

#[test]
fn dispatch_refuses_an_unknown_tag() {
    assert_eq!(dispatch(&[0u8; 8]), Err(FrameworkError::InstructionFallbackNotFound));
    let mut data = Instruction::End.data();
    data[7] ^= 1;
    assert_eq!(dispatch(&data), Err(FrameworkError::InstructionFallbackNotFound));
    // The tag of a request to a venue is no instruction of the router.
    assert_eq!(
        dispatch(&[214, 8, 4, 77, 180, 230, 207, 158, 0, 0]),
        Err(FrameworkError::InstructionFallbackNotFound)
    );
}

#[test]
fn dispatch_refuses_data_without_a_tag() {
    assert_eq!(dispatch(&[]), Err(FrameworkError::InstructionMissing));
    assert_eq!(dispatch(&Instruction::End.data()[..7]), Err(FrameworkError::InstructionMissing));
}

#[test]
fn dispatch_refuses_short_arguments() {
    let data = Instruction::Begin { amount_in: 1, minimum_amount_out: 2, num_steps: 3 }.data();
    assert_eq!(data.len(), 26);
    assert_eq!(dispatch(&data[..25]), Err(FrameworkError::InstructionDidNotDeserialize));
    assert_eq!(dispatch(&data[..8]), Err(FrameworkError::InstructionDidNotDeserialize));
    let data = Instruction::BeginV2 { amount_in: 1, minimum_amount_out: 2, num_steps: 3 }.data();
    assert_eq!(dispatch(&data[..25]), Err(FrameworkError::InstructionDidNotDeserialize));
    assert!(dispatch(&data).is_ok());
}

#[test]
fn entry_checks_the_program_and_the_length() {
    let own = id();
    let data = Instruction::End.data();
    assert_eq!(entry(&own, &data), Ok(Instruction::End));
    assert_eq!(
        entry(&Pubkey::default(), &data),
        Err(FrameworkError::DeclaredProgramIdMismatch)
    );
    assert_eq!(
        entry(&Pubkey::default(), &[]),
        Err(FrameworkError::DeclaredProgramIdMismatch)
    );
    assert_eq!(entry(&own, &data[..7]), Err(FrameworkError::InstructionMissing));
    assert_eq!(entry(&own, &[]), Err(FrameworkError::InstructionMissing));
    assert_eq!(entry(&own, &[0u8; 8]), Err(FrameworkError::InstructionFallbackNotFound));
    let begin = Instruction::Begin { amount_in: 1000, minimum_amount_out: 990, num_steps: 2 };
    assert_eq!(entry(&own, &begin.data()), Ok(begin));
}

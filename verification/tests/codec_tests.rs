use lucra_core::codec::RaydiumSwap;
use lucra_core::error::LucraErrorCode;
use lucra_core::instruction::Instruction;

#[test]
fn swap_request_encodes_tag_then_little_endian_amounts() {
    let swap = RaydiumSwap { instruction: 9, amount_in: 1, min_amount_out: 258 };
    assert_eq!(swap.get_size(), 17);
    let bytes = swap.to_vec().unwrap();
    assert_eq!(
        bytes,
        vec![9, 1, 0, 0, 0, 0, 0, 0, 0, 2, 1, 0, 0, 0, 0, 0, 0]
    );
}

#[test]
fn swap_request_packs_into_a_sized_buffer() {
    let swap = RaydiumSwap {
        instruction: 9,
        amount_in: 0x0102030405060708,
        min_amount_out: u64::MAX,
    };
    let mut buffer = vec![0u8; 17];
    assert_eq!(swap.pack(&mut buffer).unwrap(), 17);
    assert_eq!(
        buffer,
        vec![
            9, 8, 7, 6, 5, 4, 3, 2, 1, 255, 255, 255, 255, 255, 255, 255, 255
        ]
    );

    let mut wrong = vec![0u8; 16];
    assert_eq!(
        swap.pack(&mut wrong).unwrap_err(),
        LucraErrorCode::InvalidAccountInput
    );
    assert_eq!(wrong.len(), 16);
}

#[test]
fn requests_carry_their_plain_payloads() {
    let a = Instruction::CreateMataLoan { lamports: 5 };
    let b = Instruction::CreateMataLoan { lamports: 5 };
    let c = Instruction::HarvestPenalty { amm_type: 2 };
    assert_eq!(a, b);
    assert_ne!(a, c);
    match c {
        Instruction::HarvestPenalty { amm_type } => assert_eq!(amm_type, 2),
        _ => panic!("wrong variant"),
    }
}

use counter_program::error::CounterError;
use counter_program::instruction::CounterInstruction;
use counter_program::processor::{process_instruction, AccountSlot};
use counter_program::state::Counter;

#[test]
fn state_round_trip() {
    for v in [0u32, 1, 5, 255, 256, 0xdead_beef, u32::MAX - 1, u32::MAX] {
        let encoded = Counter { count: v }.encode();
        assert_eq!(encoded.len(), 4);
        let decoded = Counter::decode(&encoded).unwrap();
        assert_eq!(decoded.count, v);
    }
}

#[test]
fn state_encoding_matches_borsh() {
    for v in [0u32, 10, 0x0102_0304, u32::MAX] {
        let encoded = Counter { count: v }.encode();
        assert_eq!(encoded, borsh::to_vec(&v).unwrap());
        assert_eq!(borsh::from_slice::<u32>(&encoded).unwrap(), v);
    }
}

#[test]
fn state_decode_rejects_wrong_length() {
    assert_eq!(Counter::decode(&[]), Err(CounterError::DecodeError));
    assert_eq!(Counter::decode(&[1, 2, 3]), Err(CounterError::DecodeError));
    assert_eq!(Counter::decode(&[1, 2, 3, 4, 5]), Err(CounterError::DecodeError));
    assert!(borsh::from_slice::<u32>(&[1, 2, 3]).is_err());
    assert!(borsh::from_slice::<u32>(&[1, 2, 3, 4, 5]).is_err());
}

#[test]
fn instruction_decode_variants() {
    assert_eq!(
        CounterInstruction::decode(&[0, 5, 0, 0, 0]),
        Ok(CounterInstruction::Increment(5))
    );
    assert_eq!(
        CounterInstruction::decode(&[1, 7, 1, 0, 0]),
        Ok(CounterInstruction::Decrement(263))
    );
}

#[test]
fn instruction_decode_rejects_unknown_discriminant() {
    assert_eq!(
        CounterInstruction::decode(&[2, 0, 0, 0, 0]),
        Err(CounterError::DecodeError)
    );
    assert_eq!(
        CounterInstruction::decode(&[255, 0, 0, 0, 0]),
        Err(CounterError::DecodeError)
    );
}

#[test]
fn instruction_decode_rejects_truncated_payload() {
    assert_eq!(CounterInstruction::decode(&[0, 0, 0]), Err(CounterError::DecodeError));
    assert_eq!(CounterInstruction::decode(&[]), Err(CounterError::DecodeError));
    assert_eq!(CounterInstruction::decode(&[0, 0, 0, 0]), Err(CounterError::DecodeError));
    assert_eq!(
        CounterInstruction::decode(&[0, 0, 0, 0, 0, 0]),
        Err(CounterError::DecodeError)
    );
}

#[test]
fn increment_adds_modulo_two_pow_32() {
    assert_eq!(CounterInstruction::Increment(3).apply(5), 8);
    assert_eq!(CounterInstruction::Increment(1).apply(u32::MAX), 0);
    assert_eq!(CounterInstruction::Increment(10).apply(u32::MAX), 9);
}

#[test]
fn decrement_subtracts_modulo_two_pow_32() {
    assert_eq!(CounterInstruction::Decrement(3).apply(5), 2);
    assert_eq!(CounterInstruction::Decrement(1).apply(0), u32::MAX);
    assert_eq!(CounterInstruction::Decrement(10).apply(4), u32::MAX - 5);
}

#[test]
fn zero_amount_is_a_no_op() {
    for c in [0u32, 1, 42, u32::MAX] {
        assert_eq!(CounterInstruction::Increment(0).apply(c), c);
        assert_eq!(CounterInstruction::Decrement(0).apply(c), c);
    }
}

#[test]
fn empty_account_list_is_missing_account() {
    let mut accounts: Vec<AccountSlot> = Vec::new();
    let r = process_instruction(&mut accounts, &[0, 5, 0, 0, 0]);
    assert_eq!(r, Err(CounterError::MissingAccount));
    assert!(accounts.is_empty());
}

#[test]
fn short_slot_fails_decode_without_write() {
    let mut accounts = vec![AccountSlot { data: vec![10, 0, 0] }];
    let r = process_instruction(&mut accounts, &[0, 5, 0, 0, 0]);
    assert_eq!(r, Err(CounterError::DecodeError));
    assert_eq!(accounts[0].data, vec![10, 0, 0]);
}

#[test]
fn unknown_discriminant_fails_decode_without_write() {
    let mut accounts = vec![AccountSlot { data: vec![10, 0, 0, 0] }];
    let r = process_instruction(&mut accounts, &[2, 0, 0, 0, 0]);
    assert_eq!(r, Err(CounterError::DecodeError));
    assert_eq!(accounts[0].data, vec![10, 0, 0, 0]);
}

#[test]
fn truncated_payload_fails_decode_without_write() {
    let mut accounts = vec![AccountSlot { data: vec![10, 0, 0, 0] }];
    let r = process_instruction(&mut accounts, &[0, 0, 0]);
    assert_eq!(r, Err(CounterError::DecodeError));
    assert_eq!(accounts[0].data, vec![10, 0, 0, 0]);
}

#[test]
fn end_to_end_increment_by_five() {
    let mut accounts = vec![AccountSlot { data: vec![10, 0, 0, 0] }];
    let r = process_instruction(&mut accounts, &[0, 5, 0, 0, 0]);
    assert_eq!(r, Ok(15));
    assert_eq!(accounts[0].data, vec![15, 0, 0, 0]);
}

#[test]
fn end_to_end_decrement_with_wraparound() {
    let mut accounts = vec![AccountSlot { data: vec![0, 0, 0, 0] }];
    let r = process_instruction(&mut accounts, &[1, 1, 0, 0, 0]);
    assert_eq!(r, Ok(u32::MAX));
    assert_eq!(accounts[0].data, vec![255, 255, 255, 255]);
}

#[test]
fn only_the_first_slot_is_written() {
    let mut accounts = vec![
        AccountSlot { data: vec![10, 0, 0, 0] },
        AccountSlot { data: vec![9, 9, 9] },
    ];
    let r = process_instruction(&mut accounts, &[0, 1, 0, 0, 0]);
    assert_eq!(r, Ok(11));
    assert_eq!(accounts[0].data, vec![11, 0, 0, 0]);
    assert_eq!(accounts[1].data, vec![9, 9, 9]);
}

use ledger_custody::calculator::{
    compute_operation, process_instructions, try_parse_operation_input, CalcError, Operation,
    UserCounter,
};

fn instruction(operator: u8, a: u32, b: u32) -> Vec<u8> {
    let mut data = vec![operator];
    data.extend_from_slice(&a.to_le_bytes());
    data.extend_from_slice(&b.to_le_bytes());
    data
}

#[test]
fn record_sizes_match_the_ledger_layout() {
    assert_eq!(UserCounter::size(), 8);
    assert_eq!(Operation::size(), 53);
}

#[test]
fn parsing_reads_the_little_endian_layout() {
    let data = instruction(3, 0x0102_0304, 0xA0B0_C0D0);
    let input = try_parse_operation_input(&data).expect("nine bytes must parse");
    assert_eq!(input.operator, 3);
    assert_eq!(input.entry_a, 0x0102_0304);
    assert_eq!(input.entry_b, 0xA0B0_C0D0);
}

#[test]
fn parsing_refuses_any_other_length() {
    assert!(try_parse_operation_input(&[]).is_none());
    assert!(try_parse_operation_input(&[1, 2, 3]).is_none());
    let mut long = instruction(1, 2, 3);
    long.push(0);
    assert!(try_parse_operation_input(&long).is_none());
}

#[test]
fn the_four_operators_compute() {
    assert_eq!(compute_operation(1, 7, 5), Ok(12));
    assert_eq!(compute_operation(2, 7, 5), Ok(2));
    assert_eq!(compute_operation(3, 7, 5), Ok(35));
    assert_eq!(compute_operation(4, 17, 5), Ok(3));
}

#[test]
fn addition_subtraction_multiplication_wrap() {
    assert_eq!(compute_operation(1, u32::MAX, 1), Ok(0));
    assert_eq!(compute_operation(2, 0, 1), Ok(u32::MAX));
    assert_eq!(compute_operation(3, 1 << 16, 1 << 16), Ok(0));
}

#[test]
fn division_by_zero_is_refused() {
    assert_eq!(compute_operation(4, 17, 0), Err(CalcError::InvalidArgument));
}

#[test]
fn unknown_operators_are_refused() {
    assert_eq!(
        compute_operation(0, 1, 2),
        Err(CalcError::InvalidInstructionData)
    );
    assert_eq!(
        compute_operation(5, 1, 2),
        Err(CalcError::InvalidInstructionData)
    );
}

#[test]
fn processing_records_the_operation_and_bumps_the_counter() {
    let mut counter = UserCounter {
        operation_counter: 41,
    };
    let data = instruction(1, 30, 12);
    let op = process_instructions(9, true, &data, 777, &mut counter).expect("must succeed");
    assert_eq!(op.operator, 1);
    assert_eq!(op.entry_a, 30);
    assert_eq!(op.entry_b, 12);
    assert_eq!(op.result, 42);
    assert_eq!(op.user, 9);
    assert_eq!(op.timestamp, 777);
    assert_eq!(counter.operation_counter, 42);
}

#[test]
fn processing_requires_a_signer() {
    let mut counter = UserCounter {
        operation_counter: 0,
    };
    let data = instruction(1, 1, 1);
    let r = process_instructions(9, false, &data, 0, &mut counter);
    assert_eq!(r, Err(CalcError::MissingRequiredSignature));
    assert_eq!(counter.operation_counter, 0);
}

#[test]
fn processing_refuses_malformed_instructions() {
    let mut counter = UserCounter {
        operation_counter: 0,
    };
    let r = process_instructions(9, true, &[1, 2], 0, &mut counter);
    assert_eq!(r, Err(CalcError::InvalidInstructionData));
    let bad_op = instruction(9, 1, 1);
    let r = process_instructions(9, true, &bad_op, 0, &mut counter);
    assert_eq!(r, Err(CalcError::InvalidInstructionData));
    let div_zero = instruction(4, 1, 0);
    let r = process_instructions(9, true, &div_zero, 0, &mut counter);
    assert_eq!(r, Err(CalcError::InvalidArgument));
    assert_eq!(counter.operation_counter, 0);
}

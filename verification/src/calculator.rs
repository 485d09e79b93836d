//! The operation recorder: parses a fixed nine-byte instruction — an
//! operator tag and two little-endian 32-bit operands — computes the
//! result, and produces the operation record to store together with the
//! caller's bumped per-user operation counter. Addition, subtraction and
//! multiplication wrap modulo 2^32, as the ledger program's release
//! arithmetic does; division by zero and unknown operators are refused.

use vstd::prelude::*;

verus! {

/// Why an instruction was refused.
#[derive(Clone, Copy, PartialEq, Eq, Structural, Debug)]
pub enum CalcError {
    MissingRequiredSignature,
    InvalidInstructionData,
    InvalidArgument,
}

impl CalcError {
    /// A descriptive message for the error code.
    pub fn message(&self) -> &'static str {
        match self {
            CalcError::MissingRequiredSignature => "Signer verification failed",
            CalcError::InvalidInstructionData => "Failed to parse instruction data",
            CalcError::InvalidArgument => "Division by zero",
        }
    }
}

/// The decoded instruction: an operator tag and two operands.
#[derive(Clone, Copy, PartialEq, Eq, Structural, Debug)]
pub struct OperationInput {
    pub operator: u8,
    pub entry_a: u32,
    pub entry_b: u32,
}

/// One recorded operation: the instruction, its result, who asked, and
/// when.
#[derive(Clone, Copy, PartialEq, Eq, Structural, Debug)]
pub struct Operation {
    pub operator: u8,
    pub entry_a: u32,
    pub entry_b: u32,
    pub result: u32,
    pub user: u64,
    pub timestamp: i64,
}

impl Operation {
    /// The serialized size of an operation record on the ledger, where the
    /// user id is a 32-byte key.
    pub fn size() -> (n: usize)
        ensures
            n == 53,
    {
        1 + 4 + 4 + 4 + 32 + 8
    }
}

/// The per-user count of recorded operations.
#[derive(Clone, Copy, PartialEq, Eq, Structural, Debug)]
pub struct UserCounter {
    pub operation_counter: u64,
}

impl UserCounter {
    /// The serialized size of the counter record on the ledger.
    pub fn size() -> (n: usize)
        ensures
            n == 8,
    {
        8
    }
}

/// The unsigned 32-bit value written little-endian at `b[i..i + 4]`.
pub open spec fn le_u32_at(b: Seq<u8>, i: int) -> int {
    b[i] + b[i + 1] * 0x100 + b[i + 2] * 0x1_0000 + b[i + 3] * 0x100_0000
}

/// Decodes the nine-byte instruction layout — one operator byte, then the
/// two operands little-endian — refusing anything of another length, as
/// the wire format admits no trailing bytes.
pub fn try_parse_operation_input(data: &[u8]) -> (r: Option<OperationInput>)
    ensures
        match r {
            Some(input) => {
                &&& data@.len() == 9
                &&& input.operator == data@[0]
                &&& input.entry_a == le_u32_at(data@, 1)
                &&& input.entry_b == le_u32_at(data@, 5)
            },
            None => data@.len() != 9,
        },
{
    if data.len() != 9 {
        return None;
    }
    let operator = data[0];
    let entry_a = (data[1] as u32) + (data[2] as u32) * 0x100 + (data[3] as u32) * 0x1_0000 + (
    data[4] as u32) * 0x100_0000;
    let entry_b = (data[5] as u32) + (data[6] as u32) * 0x100 + (data[7] as u32) * 0x1_0000 + (
    data[8] as u32) * 0x100_0000;
    Some(OperationInput { operator, entry_a, entry_b })
}

/// What each operator computes: addition, subtraction and multiplication
/// modulo 2^32, or division.
pub open spec fn operation_result(operator: u8, a: u32, b: u32) -> int {
    if operator == 1 {
        (a + b) % 0x1_0000_0000
    } else if operator == 2 {
        (a - b + 0x1_0000_0000) % 0x1_0000_0000
    } else if operator == 3 {
        (a * b) % 0x1_0000_0000
    } else {
        a as int / b as int
    }
}

/// Computes one operation. Operators 1 to 4 are addition, subtraction,
/// multiplication and division; anything else is refused, as is dividing
/// by zero.
pub fn compute_operation(operator: u8, entry_a: u32, entry_b: u32) -> (r: Result<u32, CalcError>)
    ensures
        match r {
            Ok(result) => {
                &&& 1 <= operator <= 4
                &&& (operator == 4 ==> entry_b != 0)
                &&& result == operation_result(operator, entry_a, entry_b)
            },
            Err(CalcError::InvalidArgument) => operator == 4 && entry_b == 0,
            Err(CalcError::InvalidInstructionData) => !(1 <= operator <= 4),
            Err(_) => false,
        },
{
    match operator {
        1 => {
            let wide: u64 = (entry_a as u64) + (entry_b as u64);
            Ok((wide % 0x1_0000_0000u64) as u32)
        },
        2 => {
            let wide: u64 = (entry_a as u64) + 0x1_0000_0000u64 - (entry_b as u64);
            Ok((wide % 0x1_0000_0000u64) as u32)
        },
        3 => {
            proof {
                assert(entry_a as int * entry_b as int <= u64::MAX) by (nonlinear_arith)
                    requires
                        entry_a <= u32::MAX,
                        entry_b <= u32::MAX,
                ;
            }
            let wide: u64 = (entry_a as u64) * (entry_b as u64);
            Ok((wide % 0x1_0000_0000u64) as u32)
        },
        4 => {
            if entry_b == 0 {
                return Err(CalcError::InvalidArgument);
            }
            Ok(entry_a / entry_b)
        },
        _ => Err(CalcError::InvalidInstructionData),
    }
}

/// Handles one instruction: checks the signer, decodes the nine-byte
/// instruction, computes the result, bumps the caller's operation counter,
/// and hands back the record to store at the counter's previous index. The
/// boundary does the storing; nothing here is committed on an error.
pub fn process_instructions(
    signer: u64,
    signer_is_signer: bool,
    instruction_data: &[u8],
    now: i64,
    user_counter: &mut UserCounter,
) -> (r: Result<Operation, CalcError>)
    requires
        old(user_counter).operation_counter < u64::MAX,
    ensures
        match r {
            Ok(op) => {
                &&& signer_is_signer
                &&& instruction_data@.len() == 9
                &&& op.operator == instruction_data@[0]
                &&& op.entry_a == le_u32_at(instruction_data@, 1)
                &&& op.entry_b == le_u32_at(instruction_data@, 5)
                &&& 1 <= op.operator <= 4
                &&& (op.operator == 4 ==> op.entry_b != 0)
                &&& op.result == operation_result(op.operator, op.entry_a, op.entry_b)
                &&& op.user == signer
                &&& op.timestamp == now
                &&& final(user_counter).operation_counter == old(user_counter).operation_counter
                    + 1
            },
            Err(e) => {
                &&& (e == CalcError::MissingRequiredSignature <==> !signer_is_signer)
                &&& (e == CalcError::InvalidInstructionData <==> signer_is_signer && (
                instruction_data@.len() != 9 || !(1 <= instruction_data@[0] <= 4)))
                &&& (e == CalcError::InvalidArgument <==> signer_is_signer
                    && instruction_data@.len() == 9 && instruction_data@[0] == 4 && le_u32_at(
                    instruction_data@,
                    5,
                ) == 0)
                &&& (e == CalcError::MissingRequiredSignature || e
                    == CalcError::InvalidInstructionData || e == CalcError::InvalidArgument)
                &&& *final(user_counter) == *old(user_counter)
            },
        },
{
    if !signer_is_signer {
        return Err(CalcError::MissingRequiredSignature);
    }
    let input = match try_parse_operation_input(instruction_data) {
        Some(input) => input,
        None => {
            return Err(CalcError::InvalidInstructionData);
        },
    };
    let result = match compute_operation(input.operator, input.entry_a, input.entry_b) {
        Ok(result) => result,
        Err(e) => {
            return Err(e);
        },
    };
    let op = Operation {
        operator: input.operator,
        entry_a: input.entry_a,
        entry_b: input.entry_b,
        result,
        user: signer,
        timestamp: now,
    };
    user_counter.operation_counter = user_counter.operation_counter + 1;
    Ok(op)
}

} // verus!

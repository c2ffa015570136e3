use vstd::prelude::*;
use vstd::bytes::{
    lemma_auto_spec_u64_to_from_le_bytes, spec_u64_from_le_bytes, spec_u64_to_le_bytes,
    u64_from_le_bytes, u64_to_le_bytes,
};
use vstd::slice::slice_subrange;
use crate::error::LockError;

verus! {

/// The two operations a caller can request.
#[derive(Debug, Clone, Copy, PartialEq, Eq, Structural)]
pub enum LockInstruction {
    /// Commit `amount` lamports from the depositor into the custody record.
    Lock { amount: u64 },
    /// Close the custody record and pay its amount back to its owner.
    Release,
}

/// The instruction that a payload encodes: tag 0 followed by the amount
/// as eight little-endian bytes, or tag 1 alone.
pub open spec fn instruction_of(s: Seq<u8>) -> Option<LockInstruction> {
    if s.len() == 9 && s[0] == 0 {
        Some(LockInstruction::Lock { amount: spec_u64_from_le_bytes(s.subrange(1, 9)) })
    } else if s.len() == 1 && s[0] == 1 {
        Some(LockInstruction::Release)
    } else {
        None
    }
}

/// The payload that encodes an instruction.
pub open spec fn instruction_bytes(i: LockInstruction) -> Seq<u8> {
    match i {
        LockInstruction::Lock { amount } => seq![0u8] + spec_u64_to_le_bytes(amount),
        LockInstruction::Release => seq![1u8],
    }
}

impl LockInstruction {
    /// Decodes an instruction payload.
    pub fn unpack(input: &[u8]) -> (r: Result<LockInstruction, LockError>)
        ensures
            r == (match instruction_of(input@) {
                Some(i) => Ok(i),
                None => Err(LockError::InvalidInstruction),
            }),
    {
        if input.len() == 9 && input[0] == 0 {
            let amount = u64_from_le_bytes(slice_subrange(input, 1, 9));
            Ok(LockInstruction::Lock { amount })
        } else if input.len() == 1 && input[0] == 1 {
            Ok(LockInstruction::Release)
        } else {
            Err(LockError::InvalidInstruction)
        }
    }

    /// Encodes the instruction as a payload.
    pub fn pack(&self) -> (v: Vec<u8>)
        ensures
            v@ == instruction_bytes(*self),
    {
        match self {
            LockInstruction::Lock { amount } => {
                let mut v: Vec<u8> = Vec::new();
                v.push(0u8);
                let mut bytes = u64_to_le_bytes(*amount);
                v.append(&mut bytes);
                v
            },
            LockInstruction::Release => {
                let mut v: Vec<u8> = Vec::new();
                v.push(1u8);
                v
            },
        }
    }
}

/// Encoding an instruction and decoding the payload gives it back.
pub proof fn lemma_instruction_round_trip(i: LockInstruction)
    ensures
        instruction_of(instruction_bytes(i)) == Some(i),
{
    lemma_auto_spec_u64_to_from_le_bytes();
    if let LockInstruction::Lock { amount } = i {
        assert(instruction_bytes(i).subrange(1, 9) =~= spec_u64_to_le_bytes(amount));
    }
}

} // verus!

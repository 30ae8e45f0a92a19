//! A liquid-staking accounting engine: the pool-level reward accumulator, the
//! bounded per-user position set, and the operations that move value between
//! them. Every operation is a total function from plain values to a new state
//! and a description of the asset movements the host has to perform.

use vstd::prelude::*;
use crate::error::StakingError;
use crate::instructions::StakingInstructions;

pub mod conservation;
pub mod error;
pub mod instructions;
pub mod reward_math;
pub mod states;

verus! {

/// The operation that an instruction selects, and where its payload starts.
#[derive(Clone, Copy, Debug)]
pub struct Dispatch {
    pub instruction: StakingInstructions,
    /// The index of the first payload byte in the instruction data.
    pub payload_offset: usize,
}

/// Reads the leading discriminator byte of `instruction_data` and says which
/// operation it selects; the bytes after it are that operation's payload.
/// Empty data and an unknown discriminator are refused.
pub fn process_instruction(instruction_data: &[u8]) -> (result: Result<Dispatch, StakingError>)
    ensures
        match result {
            Ok(dispatch) => instruction_data@.len() > 0 && dispatch.payload_offset == 1
                && StakingInstructions::spec_from_discriminator(instruction_data@[0]) == Some(
                dispatch.instruction,
            ),
            Err(e) => e == StakingError::InvalidInstructionData && (instruction_data@.len() == 0
                || StakingInstructions::spec_from_discriminator(instruction_data@[0]) is None),
        },
{
    if instruction_data.len() == 0 {
        return Err(StakingError::InvalidInstructionData);
    }
    let discriminator: u8 = instruction_data[0];
    match StakingInstructions::try_from(&discriminator) {
        Ok(instruction) => Ok(Dispatch { instruction, payload_offset: 1 }),
        Err(e) => Err(e),
    }
}

} // verus!

use crate::claim::ClaimData;
use crate::error::ProgramFault;
use crate::participate::ParticipateData;
use vstd::prelude::*;
use vstd::slice::slice_subrange;

verus! {

/// A decoded instruction: one leading discriminator byte, then a
/// fixed-width payload.
#[derive(Clone, Copy, Debug, PartialEq, Eq, Structural)]
pub enum TetherInstructions {
    /// Discriminator 0: open a stake position.
    Participate { active_time: i64, seed: u64 },
    /// Discriminator 1: settle and close a stake position.
    Claim { is_winner: bool, mint_bump: u8 },
}

/// Discriminator of Participate.
pub const PARTICIPATE_DISCRIMINATOR: u8 = 0;

/// Discriminator of Claim.
pub const CLAIM_DISCRIMINATOR: u8 = 1;

impl TetherInstructions {
    pub open spec fn spec_unpack(data: Seq<u8>) -> Result<TetherInstructions, ProgramFault> {
        if data.len() == 0 {
            Err(ProgramFault::InvalidInstructionData)
        } else if data[0] == PARTICIPATE_DISCRIMINATOR {
            match ParticipateData::spec_try_from(data.subrange(1, data.len() as int)) {
                Ok(d) => Ok(TetherInstructions::Participate { active_time: d.active_time, seed: d.seed }),
                Err(e) => Err(e),
            }
        } else if data[0] == CLAIM_DISCRIMINATOR {
            match ClaimData::spec_try_from(data.subrange(1, data.len() as int)) {
                Ok(d) => Ok(TetherInstructions::Claim { is_winner: d.is_winner, mint_bump: d.mint_bump }),
                Err(e) => Err(e),
            }
        } else {
            Err(ProgramFault::InvalidInstructionData)
        }
    }

    /// Decodes raw instruction bytes; an unknown discriminator or a payload
    /// of the wrong length is `InvalidInstructionData`.
    pub fn unpack(data: &[u8]) -> (r: Result<TetherInstructions, ProgramFault>)
        ensures
            r == Self::spec_unpack(data@),
    {
        if data.len() == 0 {
            return Err(ProgramFault::InvalidInstructionData);
        }
        let rest = slice_subrange(data, 1, data.len());
        if data[0] == PARTICIPATE_DISCRIMINATOR {
            match ParticipateData::try_from(rest) {
                Ok(d) => Ok(TetherInstructions::Participate { active_time: d.active_time, seed: d.seed }),
                Err(e) => Err(e),
            }
        } else if data[0] == CLAIM_DISCRIMINATOR {
            match ClaimData::try_from(rest) {
                Ok(d) => Ok(TetherInstructions::Claim { is_winner: d.is_winner, mint_bump: d.mint_bump }),
                Err(e) => Err(e),
            }
        } else {
            Err(ProgramFault::InvalidInstructionData)
        }
    }
}

} // verus!

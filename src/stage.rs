use vstd::prelude::*;

use crate::error::ErrorCode;

verus! {

/// Lifecycle position of an escrow record.
#[derive(Clone, Copy, Debug, PartialEq, Eq, Structural)]
pub enum Stage {
    Uninitialized,
    Funded,
    Matched,
    PartiallyWithdrawn,
    Settled,
    Cancelled,
}

/// The stored code of each stage.
pub open spec fn stage_code(s: Stage) -> u8 {
    match s {
        Stage::Uninitialized => 0,
        Stage::Funded => 1,
        Stage::Matched => 2,
        Stage::PartiallyWithdrawn => 3,
        Stage::Settled => 4,
        Stage::Cancelled => 5,
    }
}

impl Stage {
    /// Decodes a stored stage code; a code that names no stage is an error.
    pub fn from(code: u8) -> (r: Result<Stage, ErrorCode>)
        ensures
            match r {
                Ok(s) => stage_code(s) == code,
                Err(e) => e == ErrorCode::UnknownStage(code) && code > 5,
            },
            r is Err <==> code > 5,
    {
        match code {
            0 => Ok(Stage::Uninitialized),
            1 => Ok(Stage::Funded),
            2 => Ok(Stage::Matched),
            3 => Ok(Stage::PartiallyWithdrawn),
            4 => Ok(Stage::Settled),
            5 => Ok(Stage::Cancelled),
            _ => Err(ErrorCode::UnknownStage(code)),
        }
    }

    /// The code under which this stage is stored.
    pub fn to_code(&self) -> (r: u8)
        ensures
            r == stage_code(*self),
    {
        match self {
            Stage::Uninitialized => 0,
            Stage::Funded => 1,
            Stage::Matched => 2,
            Stage::PartiallyWithdrawn => 3,
            Stage::Settled => 4,
            Stage::Cancelled => 5,
        }
    }

    /// Settled and Cancelled are final: no operation leaves them.
    pub open spec fn is_terminal(self) -> bool {
        self == Stage::Settled || self == Stage::Cancelled
    }
}

/// Encoding a stage and decoding the code gives the stage back.
pub proof fn lemma_stage_code_round_trip(s: Stage)
    ensures
        stage_code(s) <= 5,
        forall|t: Stage| stage_code(t) == stage_code(s) ==> t == s,
{
}

} // verus!

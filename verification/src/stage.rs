use vstd::prelude::*;

verus! {

/// Lifecycle marker of an escrow record. Custody begins at `Deposited`;
/// `Complete` and `Reversed` are the declared later stages of the
/// custody-to-release progression.
#[derive(Clone, Copy, PartialEq, Eq, Structural, Debug)]
pub enum EscrowStage {
    Deposited,
    Complete,
    Reversed,
}

/// The byte that encodes a stage when it is stored in an escrow record.
pub open spec fn stage_byte(stage: EscrowStage) -> u8 {
    match stage {
        EscrowStage::Deposited => 0,
        EscrowStage::Complete => 1,
        EscrowStage::Reversed => 2,
    }
}

/// The stage a stored byte decodes to, if it encodes one at all.
pub open spec fn stage_of_byte(b: u8) -> Option<EscrowStage> {
    if b == 0 {
        Some(EscrowStage::Deposited)
    } else if b == 1 {
        Some(EscrowStage::Complete)
    } else if b == 2 {
        Some(EscrowStage::Reversed)
    } else {
        None
    }
}

impl EscrowStage {
    /// The byte under which this stage is stored.
    pub fn to_u8(&self) -> (b: u8)
        ensures
            b == stage_byte(*self),
    {
        match self {
            EscrowStage::Deposited => 0,
            EscrowStage::Complete => 1,
            EscrowStage::Reversed => 2,
        }
    }

    /// Decode a stored byte; bytes that encode no stage yield `None`.
    pub fn to_escrow_stage(stage: u8) -> (r: Option<EscrowStage>)
        ensures
            r == stage_of_byte(stage),
    {
        match stage {
            0 => Some(EscrowStage::Deposited),
            1 => Some(EscrowStage::Complete),
            2 => Some(EscrowStage::Reversed),
            _ => None,
        }
    }
}

/// Encoding a stage as a byte and decoding it yields the stage back.
pub proof fn lemma_stage_byte_round_trip(stage: EscrowStage)
    ensures
        stage_of_byte(stage_byte(stage)) == Some(stage),
{
}

/// A byte decodes to a stage exactly when it is one of the three stage
/// bytes, and the stage it decodes to encodes back to the same byte.
pub proof fn lemma_byte_stage_round_trip(b: u8)
    ensures
        stage_of_byte(b) is Some <==> b < 3,
        stage_of_byte(b) is Some ==> stage_byte(stage_of_byte(b)->Some_0) == b,
{
}

} // verus!

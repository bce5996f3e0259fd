//! The data carried through a round: slot notifications, submitted
//! solutions, and their mathematical models.

use vstd::prelude::*;

verus! {

/// Information about a new slot that has just arrived, as delivered to
/// every live subscriber.
#[derive(Debug, Clone)]
pub struct NewSlotInfo {
    /// Slot number.
    pub slot_number: u64,
    /// Slot challenge.
    pub challenge: [u8; 8],
    /// Acceptable solution range.
    pub solution_range: u64,
}

/// A candidate answer to a round's challenge. Immutable once built;
/// ownership moves to whoever delivers it as the round's outcome.
#[derive(Debug, Clone)]
pub struct Solution {
    /// Identity of the submitting farmer, as raw public key bytes.
    pub public_key: [u8; 32],
    /// Numeric nonce.
    pub nonce: u64,
    /// Encoding payload.
    pub encoding: Vec<u8>,
    /// Signature payload.
    pub signature: Vec<u8>,
    /// Tag.
    pub tag: [u8; 8],
}

/// A solution as a remote farmer submits it.
#[derive(Debug, Clone)]
pub struct RpcSolution {
    /// Identity of the submitting farmer, as raw public key bytes.
    pub public_key: [u8; 32],
    /// Numeric nonce.
    pub nonce: u64,
    /// Encoding payload.
    pub encoding: Vec<u8>,
    /// Signature payload.
    pub signature: Vec<u8>,
    /// Tag.
    pub tag: [u8; 8],
}

/// A farmer's reply for one slot: a candidate solution, or an explicit
/// "no solution" for that slot.
#[derive(Debug)]
pub struct ProposedProofOfSpaceResult {
    /// The slot the reply is for.
    pub slot_number: u64,
    /// The candidate solution, if the farmer found one.
    pub solution: Option<RpcSolution>,
}

/// The mathematical value of a solution: every field as a plain
/// sequence or integer.
#[verifier::ext_equal]
pub struct SolutionModel {
    pub public_key: Seq<u8>,
    pub nonce: u64,
    pub encoding: Seq<u8>,
    pub signature: Seq<u8>,
    pub tag: Seq<u8>,
}

impl View for Solution {
    type V = SolutionModel;

    open spec fn view(&self) -> SolutionModel {
        SolutionModel {
            public_key: self.public_key@,
            nonce: self.nonce,
            encoding: self.encoding@,
            signature: self.signature@,
            tag: self.tag@,
        }
    }
}

impl View for RpcSolution {
    type V = SolutionModel;

    open spec fn view(&self) -> SolutionModel {
        SolutionModel {
            public_key: self.public_key@,
            nonce: self.nonce,
            encoding: self.encoding@,
            signature: self.signature@,
            tag: self.tag@,
        }
    }
}

/// The model of a submission: the submitted solution's value, if any.
pub open spec fn submission_view(s: Option<RpcSolution>) -> Option<SolutionModel> {
    match s {
        Some(rpc) => Some(rpc@),
        None => None,
    }
}

/// The model of an outcome: the accepted solution's value, if any.
pub open spec fn outcome_view(o: Option<Solution>) -> Option<SolutionModel> {
    match o {
        Some(sol) => Some(sol@),
        None => None,
    }
}

impl Solution {
    /// Takes ownership of a submitted solution's fields, reconstructing
    /// the farmer identity from the submitted key bytes.
    pub fn from_rpc(rpc: RpcSolution) -> (sol: Solution)
        ensures
            sol@ == rpc@,
    {
        Solution {
            public_key: rpc.public_key,
            nonce: rpc.nonce,
            encoding: rpc.encoding,
            signature: rpc.signature,
            tag: rpc.tag,
        }
    }
}

} // verus!

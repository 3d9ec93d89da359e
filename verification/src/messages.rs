//! The request and reply messages of the vocoder and packet services.
//!
//! Algorithms travel as their 32-bit wire codes, as in the service interface.

use vstd::prelude::*;

verus! {

/// A request that carries nothing.
#[derive(Debug, Clone, Copy, PartialEq, Eq, Default)]
pub struct Empty {}

/// Request to switch audio loopback on or off.
#[derive(Debug, Clone, Copy, PartialEq, Eq, Default)]
pub struct LoopbackRequest {
    pub loopback: bool,
}

/// Reply with the current loopback setting.
#[derive(Debug, Clone, Copy, PartialEq, Eq, Default)]
pub struct LoopbackResponse {
    pub loopback: bool,
}

/// Request to select an algorithm, given by its wire code.
#[derive(Debug, Clone, Copy, PartialEq, Eq, Default)]
pub struct AlgorithmRequest {
    pub algorithm: i32,
}

/// Reply with an algorithm, given by its wire code.
#[derive(Debug, Clone, Copy, PartialEq, Eq, Default)]
pub struct AlgorithmResponse {
    pub algorithm: i32,
}

/// Reply with the wire codes of the supported algorithms.
#[derive(Debug, PartialEq, Eq, Default)]
pub struct AlgorithmSequence {
    pub algorithms: Vec<i32>,
}

impl Clone for AlgorithmSequence {
    fn clone(&self) -> (copy: Self)
        ensures
            copy.algorithms@ == self.algorithms@,
    {
        let algorithms = self.algorithms.clone();
        assert(algorithms@ =~= self.algorithms@);
        AlgorithmSequence { algorithms }
    }
}

/// Request for a stream of produced packets.
#[derive(Debug, Clone, Copy, PartialEq, Eq, Default)]
pub struct ProduceRequest {
    pub max_packets: i32,
}

/// Reply to a stream of consumed packets.
#[derive(Debug, PartialEq, Eq, Default)]
pub struct ConsumeResponse {
    pub success: bool,
    pub message: String,
}

impl Clone for ConsumeResponse {
    fn clone(&self) -> (copy: Self)
        ensures
            copy.success == self.success,
            copy.message@ == self.message@,
    {
        ConsumeResponse { success: self.success, message: self.message.clone() }
    }
}

} // verus!

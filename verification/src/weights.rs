//! Benchmarked worst-case weights of the primitive message-lane transactions.

use vstd::prelude::*;

verus! {

/// Execution cost of a transaction, in abstract weight units.
pub type Weight = u64;

/// Count of messages, or of relayer entries, in a batch.
pub type MessageNonce = u64;

/// One worst-case weight per primitive benchmarked transaction shape.
///
/// These values come from a benchmarking harness; this crate only combines
/// them into derived overhead figures.
#[derive(Clone, Copy, PartialEq, Eq, Structural, Debug)]
pub struct WorstCaseWeights {
    /// Sending the smallest possible message.
    pub send_minimal_message: Weight,
    /// Sending a message with a 1 KB payload.
    pub send_1_kb_message: Weight,
    /// Sending a message with a 16 KB payload.
    pub send_16_kb_message: Weight,
    /// Delivery-proof transaction carrying exactly one message.
    pub receive_single_message: Weight,
    /// Delivery-proof transaction carrying exactly two messages.
    pub receive_two_messages: Weight,
    /// Delivery-proof transaction carrying one message plus outbound lane state.
    pub receive_single_message_with_outbound_lane_state: Weight,
    /// Delivery-confirmation transaction for one message by one relayer.
    pub confirm_single_message: Weight,
    /// Delivery-confirmation transaction for two messages by one relayer.
    pub confirm_two_messages_by_single_relayer: Weight,
    /// Delivery-confirmation transaction for two messages by two relayers.
    pub confirm_two_messages_by_two_relayers: Weight,
}

/// The capability a benchmarking harness provides: the worst-case weight of
/// each primitive transaction shape.
pub trait WeightInfo {
    /// The measurement set this provider answers from.
    spec fn weights(&self) -> WorstCaseWeights;

    fn send_minimal_message_worst_case(&self) -> (w: Weight)
        ensures
            w == self.weights().send_minimal_message,
    ;

    fn send_1_kb_message_worst_case(&self) -> (w: Weight)
        ensures
            w == self.weights().send_1_kb_message,
    ;

    fn send_16_kb_message_worst_case(&self) -> (w: Weight)
        ensures
            w == self.weights().send_16_kb_message,
    ;

    fn receive_single_message_proof(&self) -> (w: Weight)
        ensures
            w == self.weights().receive_single_message,
    ;

    fn receive_two_messages_proof(&self) -> (w: Weight)
        ensures
            w == self.weights().receive_two_messages,
    ;

    fn receive_single_message_proof_with_outbound_lane_state(&self) -> (w: Weight)
        ensures
            w == self.weights().receive_single_message_with_outbound_lane_state,
    ;

    fn receive_delivery_proof_for_single_message(&self) -> (w: Weight)
        ensures
            w == self.weights().confirm_single_message,
    ;

    fn receive_delivery_proof_for_two_messages_by_single_relayer(&self) -> (w: Weight)
        ensures
            w == self.weights().confirm_two_messages_by_single_relayer,
    ;

    fn receive_delivery_proof_for_two_messages_by_two_relayers(&self) -> (w: Weight)
        ensures
            w == self.weights().confirm_two_messages_by_two_relayers,
    ;
}

impl WeightInfo for WorstCaseWeights {
    open spec fn weights(&self) -> WorstCaseWeights {
        *self
    }

    fn send_minimal_message_worst_case(&self) -> Weight {
        self.send_minimal_message
    }

    fn send_1_kb_message_worst_case(&self) -> Weight {
        self.send_1_kb_message
    }

    fn send_16_kb_message_worst_case(&self) -> Weight {
        self.send_16_kb_message
    }

    fn receive_single_message_proof(&self) -> Weight {
        self.receive_single_message
    }

    fn receive_two_messages_proof(&self) -> Weight {
        self.receive_two_messages
    }

    fn receive_single_message_proof_with_outbound_lane_state(&self) -> Weight {
        self.receive_single_message_with_outbound_lane_state
    }

    fn receive_delivery_proof_for_single_message(&self) -> Weight {
        self.confirm_single_message
    }

    fn receive_delivery_proof_for_two_messages_by_single_relayer(&self) -> Weight {
        self.confirm_two_messages_by_single_relayer
    }

    fn receive_delivery_proof_for_two_messages_by_two_relayers(&self) -> Weight {
        self.confirm_two_messages_by_two_relayers
    }
}

} // verus!

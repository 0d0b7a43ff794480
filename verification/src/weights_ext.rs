//! Derived overhead figures and the consistency check over them.

use vstd::prelude::*;

use crate::weights::MessageNonce;
use crate::weights::Weight;
use crate::weights::WeightInfo;
use crate::weights::WorstCaseWeights;

verus! {

/// Subtraction clamped at zero.
pub open spec fn sat_sub(a: Weight, b: Weight) -> Weight {
    if a >= b {
        (a - b) as Weight
    } else {
        0
    }
}

/// Multiplication clamped at the largest weight.
pub open spec fn sat_mul(a: Weight, b: Weight) -> Weight {
    if a * b > u64::MAX {
        u64::MAX
    } else {
        (a * b) as Weight
    }
}

fn saturating_mul(a: Weight, b: Weight) -> (r: Weight)
    ensures
        r == sat_mul(a, b),
{
    match a.checked_mul(b) {
        Some(r) => r,
        None => u64::MAX,
    }
}

/// Weight of sending the smallest possible message.
pub open spec fn spec_send_message_overhead(w: WorstCaseWeights) -> Weight {
    w.send_minimal_message
}

/// Payload size rounded up to 1 KB units, with one extra unit of deliberate
/// conservative bias: any size, including zero, counts as at least one unit.
pub open spec fn spec_message_size_in_kb(message_size: u32) -> Weight {
    (((1024 + message_size as int) / 1024) as Weight)
}

/// Per-KB unit cost: the linear-fit slope between the 1 KB and 16 KB
/// calibration points.
pub open spec fn spec_single_kb_weight(w: WorstCaseWeights) -> Weight {
    (sat_sub(w.send_16_kb_message, w.send_1_kb_message) / 15) as Weight
}

/// Marginal weight attributable to a payload of the given size.
pub open spec fn spec_send_message_size_overhead(w: WorstCaseWeights, message_size: u32) -> Weight {
    sat_mul(spec_message_size_in_kb(message_size), spec_single_kb_weight(w))
}

/// Fixed per-transaction overhead of a delivery-proof transaction: two
/// one-message transactions and one two-message transaction carry the same
/// total per-message cost, but the fixed overhead twice resp. once.
pub open spec fn spec_receive_messages_proof_overhead(w: WorstCaseWeights) -> Weight {
    sat_sub(sat_mul(w.receive_single_message, 2), w.receive_two_messages)
}

/// Marginal weight of the given number of messages in a delivery-proof
/// transaction.
pub open spec fn spec_receive_messages_proof_messages_overhead(
    w: WorstCaseWeights,
    messages: MessageNonce,
) -> Weight {
    sat_mul(sat_sub(w.receive_two_messages, w.receive_single_message), messages)
}

/// Extra weight of carrying outbound lane state in a delivery-proof
/// transaction.
pub open spec fn spec_receive_messages_proof_outbound_lane_state_overhead(
    w: WorstCaseWeights,
) -> Weight {
    sat_sub(w.receive_single_message_with_outbound_lane_state, w.receive_single_message)
}

/// Fixed per-transaction overhead of a delivery-confirmation transaction,
/// isolated the same way as the delivery-proof overhead.
pub open spec fn spec_receive_messages_delivery_proof_overhead(w: WorstCaseWeights) -> Weight {
    sat_sub(sat_mul(w.confirm_single_message, 2), w.confirm_two_messages_by_single_relayer)
}

/// Marginal weight of the given number of confirmed messages in a
/// delivery-confirmation transaction.
pub open spec fn spec_receive_messages_delivery_proof_messages_overhead(
    w: WorstCaseWeights,
    messages: MessageNonce,
) -> Weight {
    sat_mul(
        sat_sub(w.confirm_two_messages_by_single_relayer, w.confirm_single_message),
        messages,
    )
}

/// Marginal weight of the given number of relayer entries in a
/// delivery-confirmation transaction.
pub open spec fn spec_receive_messages_delivery_proof_relayers_overhead(
    w: WorstCaseWeights,
    relayers: MessageNonce,
) -> Weight {
    sat_mul(
        sat_sub(w.confirm_two_messages_by_two_relayers, w.confirm_two_messages_by_single_relayer),
        relayers,
    )
}

/// Why a measurement set failed the consistency check.
///
/// A zero overhead signals a broken benchmark configuration; an overflow or
/// a ceiling violation signals weights too large for the declared limits.
/// All of them mean the measurement set must not reach production.
#[derive(Clone, Copy, PartialEq, Eq, Structural, Debug)]
pub enum WeightsError {
    ZeroSendMessageOverhead,
    ZeroSendMessageSizeOverhead,
    ZeroReceiveProofOverhead,
    ZeroReceiveProofMessagesOverhead,
    ZeroReceiveProofOutboundLaneStateOverhead,
    SingleMessageDeliveryWeightOverflow,
    SingleMessageDeliveryWeightTooLarge { actual: Weight, expected: Weight },
    ZeroDeliveryProofOverhead,
    ZeroDeliveryProofMessagesOverhead,
    ZeroDeliveryProofRelayersOverhead,
    MessagesDeliveryWeightOverflow,
    MessagesDeliveryWeightTooLarge { actual: Weight, expected: Weight },
}

/// Worst-case weight of delivering a single message together with outbound
/// lane state, as an unbounded integer.
pub open spec fn spec_single_message_delivery_weight(w: WorstCaseWeights) -> int {
    spec_receive_messages_proof_overhead(w) + spec_receive_messages_proof_messages_overhead(w, 1)
        + spec_receive_messages_proof_outbound_lane_state_overhead(w)
}

/// Worst-case weight of confirming a single message delivered by a single
/// relayer, as an unbounded integer.
pub open spec fn spec_messages_delivery_confirmation_weight(w: WorstCaseWeights) -> int {
    spec_receive_messages_delivery_proof_overhead(w)
        + spec_receive_messages_delivery_proof_messages_overhead(w, 1)
        + spec_receive_messages_delivery_proof_relayers_overhead(w, 1)
}

/// The outcome of the consistency check, in the order the checks run.
pub open spec fn spec_weights_check(
    w: WorstCaseWeights,
    expected_max_single_message_delivery_tx_weight: Weight,
    expected_max_messages_delivery_tx_weight: Weight,
) -> Result<(), WeightsError> {
    if spec_send_message_overhead(w) == 0 {
        Err(WeightsError::ZeroSendMessageOverhead)
    } else if spec_send_message_size_overhead(w, 0) == 0 {
        Err(WeightsError::ZeroSendMessageSizeOverhead)
    } else if spec_receive_messages_proof_overhead(w) == 0 {
        Err(WeightsError::ZeroReceiveProofOverhead)
    } else if spec_receive_messages_proof_messages_overhead(w, 1) == 0 {
        Err(WeightsError::ZeroReceiveProofMessagesOverhead)
    } else if spec_receive_messages_proof_outbound_lane_state_overhead(w) == 0 {
        Err(WeightsError::ZeroReceiveProofOutboundLaneStateOverhead)
    } else if spec_single_message_delivery_weight(w) > u64::MAX {
        Err(WeightsError::SingleMessageDeliveryWeightOverflow)
    } else if spec_single_message_delivery_weight(w)
        > expected_max_single_message_delivery_tx_weight {
        Err(
            WeightsError::SingleMessageDeliveryWeightTooLarge {
                actual: spec_single_message_delivery_weight(w) as Weight,
                expected: expected_max_single_message_delivery_tx_weight,
            },
        )
    } else if spec_receive_messages_delivery_proof_overhead(w) == 0 {
        Err(WeightsError::ZeroDeliveryProofOverhead)
    } else if spec_receive_messages_delivery_proof_messages_overhead(w, 1) == 0 {
        Err(WeightsError::ZeroDeliveryProofMessagesOverhead)
    } else if spec_receive_messages_delivery_proof_relayers_overhead(w, 1) == 0 {
        Err(WeightsError::ZeroDeliveryProofRelayersOverhead)
    } else if spec_messages_delivery_confirmation_weight(w) > u64::MAX {
        Err(WeightsError::MessagesDeliveryWeightOverflow)
    } else if spec_messages_delivery_confirmation_weight(w)
        > expected_max_messages_delivery_tx_weight {
        Err(
            WeightsError::MessagesDeliveryWeightTooLarge {
                actual: spec_messages_delivery_confirmation_weight(w) as Weight,
                expected: expected_max_messages_delivery_tx_weight,
            },
        )
    } else {
        Ok(())
    }
}

/// Derived overhead figures, available on every measurement provider.
pub trait WeightInfoExt: WeightInfo {
    /// Weight of a message send transaction.
    fn send_message_overhead(&self) -> (w: Weight)
        ensures
            w == spec_send_message_overhead(self.weights()),
    ;

    /// Weight that needs to be accounted when a message of the given size is
    /// sent.
    fn send_message_size_overhead(&self, message_size: u32) -> (w: Weight)
        ensures
            w == spec_send_message_size_overhead(self.weights(), message_size),
    ;

    /// Weight overhead of a message-delivery transaction.
    fn receive_messages_proof_overhead(&self) -> (w: Weight)
        ensures
            w == spec_receive_messages_proof_overhead(self.weights()),
    ;

    /// Weight that needs to be accounted when receiving the given number of
    /// messages with a message-delivery transaction.
    fn receive_messages_proof_messages_overhead(&self, messages: MessageNonce) -> (w: Weight)
        ensures
            w == spec_receive_messages_proof_messages_overhead(self.weights(), messages),
    ;

    /// Weight that needs to be accounted when a message-delivery transaction
    /// is carrying an outbound lane state proof.
    fn receive_messages_proof_outbound_lane_state_overhead(&self) -> (w: Weight)
        ensures
            w == spec_receive_messages_proof_outbound_lane_state_overhead(self.weights()),
    ;

    /// Weight overhead of a delivery-confirmation transaction.
    fn receive_messages_delivery_proof_overhead(&self) -> (w: Weight)
        ensures
            w == spec_receive_messages_delivery_proof_overhead(self.weights()),
    ;

    /// Weight that needs to be accounted when receiving confirmations for the
    /// given number of messages with a delivery-confirmation transaction.
    fn receive_messages_delivery_proof_messages_overhead(&self, messages: MessageNonce) -> (w:
        Weight)
        ensures
            w == spec_receive_messages_delivery_proof_messages_overhead(self.weights(), messages),
    ;

    /// Weight that needs to be accounted when receiving confirmations for the
    /// given number of relayer entries with a delivery-confirmation
    /// transaction.
    fn receive_messages_delivery_proof_relayers_overhead(&self, relayers: MessageNonce) -> (w:
        Weight)
        ensures
            w == spec_receive_messages_delivery_proof_relayers_overhead(self.weights(), relayers),
    ;
}

impl<W: WeightInfo> WeightInfoExt for W {
    fn send_message_overhead(&self) -> Weight {
        self.send_minimal_message_worst_case()
    }

    fn send_message_size_overhead(&self, message_size: u32) -> Weight {
        let message_size_in_kb: u64 = (1024u64 + message_size as u64) / 1024;
        let single_kb_weight: u64 = self.send_16_kb_message_worst_case().saturating_sub(
            self.send_1_kb_message_worst_case(),
        ) / 15;
        saturating_mul(message_size_in_kb, single_kb_weight)
    }

    fn receive_messages_proof_overhead(&self) -> Weight {
        let weight_of_two_messages_and_two_tx_overheads = saturating_mul(
            self.receive_single_message_proof(),
            2,
        );
        let weight_of_two_messages_and_single_tx_overhead = self.receive_two_messages_proof();
        weight_of_two_messages_and_two_tx_overheads.saturating_sub(
            weight_of_two_messages_and_single_tx_overhead,
        )
    }

    fn receive_messages_proof_messages_overhead(&self, messages: MessageNonce) -> Weight {
        let weight_of_two_messages_and_single_tx_overhead = self.receive_two_messages_proof();
        let weight_of_single_message_and_single_tx_overhead = self.receive_single_message_proof();
        saturating_mul(
            weight_of_two_messages_and_single_tx_overhead.saturating_sub(
                weight_of_single_message_and_single_tx_overhead,
            ),
            messages,
        )
    }

    fn receive_messages_proof_outbound_lane_state_overhead(&self) -> Weight {
        let weight_of_single_message_and_lane_state =
            self.receive_single_message_proof_with_outbound_lane_state();
        let weight_of_single_message = self.receive_single_message_proof();
        weight_of_single_message_and_lane_state.saturating_sub(weight_of_single_message)
    }

    fn receive_messages_delivery_proof_overhead(&self) -> Weight {
        let weight_of_two_messages_and_two_tx_overheads = saturating_mul(
            self.receive_delivery_proof_for_single_message(),
            2,
        );
        let weight_of_two_messages_and_single_tx_overhead =
            self.receive_delivery_proof_for_two_messages_by_single_relayer();
        weight_of_two_messages_and_two_tx_overheads.saturating_sub(
            weight_of_two_messages_and_single_tx_overhead,
        )
    }

    fn receive_messages_delivery_proof_messages_overhead(&self, messages: MessageNonce) -> Weight {
        let weight_of_two_messages =
            self.receive_delivery_proof_for_two_messages_by_single_relayer();
        let weight_of_single_message = self.receive_delivery_proof_for_single_message();
        saturating_mul(weight_of_two_messages.saturating_sub(weight_of_single_message), messages)
    }

    fn receive_messages_delivery_proof_relayers_overhead(&self, relayers: MessageNonce) -> Weight {
        let weight_of_two_messages_by_two_relayers =
            self.receive_delivery_proof_for_two_messages_by_two_relayers();
        let weight_of_two_messages_by_single_relayer =
            self.receive_delivery_proof_for_two_messages_by_single_relayer();
        saturating_mul(
            weight_of_two_messages_by_two_relayers.saturating_sub(
                weight_of_two_messages_by_single_relayer,
            ),
            relayers,
        )
    }
}

/// Checks that the weights derived from a measurement provider look correct:
/// no derived overhead is zero, and the worst-case single-message delivery
/// and delivery-confirmation weights fit both in the weight range and under
/// the caller-declared ceilings.
///
/// Returns the first failed check, in the order of `spec_weights_check`; a
/// measurement set that it accepts is safe to trust in production.
pub fn ensure_weights_are_correct<W: WeightInfoExt>(
    weights: &W,
    expected_max_single_message_delivery_tx_weight: Weight,
    expected_max_messages_delivery_tx_weight: Weight,
) -> (r: Result<(), WeightsError>)
    ensures
        r == spec_weights_check(
            weights.weights(),
            expected_max_single_message_delivery_tx_weight,
            expected_max_messages_delivery_tx_weight,
        ),
{
    if weights.send_message_overhead() == 0 {
        return Err(WeightsError::ZeroSendMessageOverhead);
    }
    if weights.send_message_size_overhead(0) == 0 {
        return Err(WeightsError::ZeroSendMessageSizeOverhead);
    }
    let receive_proof_overhead = weights.receive_messages_proof_overhead();
    let receive_proof_messages_overhead = weights.receive_messages_proof_messages_overhead(1);
    let receive_proof_lane_state_overhead =
        weights.receive_messages_proof_outbound_lane_state_overhead();
    if receive_proof_overhead == 0 {
        return Err(WeightsError::ZeroReceiveProofOverhead);
    }
    if receive_proof_messages_overhead == 0 {
        return Err(WeightsError::ZeroReceiveProofMessagesOverhead);
    }
    if receive_proof_lane_state_overhead == 0 {
        return Err(WeightsError::ZeroReceiveProofOutboundLaneStateOverhead);
    }
    let actual_single_message_delivery_tx_weight = match receive_proof_overhead.checked_add(
        receive_proof_messages_overhead,
    ) {
        Some(partial) => match partial.checked_add(receive_proof_lane_state_overhead) {
            Some(total) => total,
            None => {
                return Err(WeightsError::SingleMessageDeliveryWeightOverflow);
            },
        },
        None => {
            return Err(WeightsError::SingleMessageDeliveryWeightOverflow);
        },
    };
    if actual_single_message_delivery_tx_weight > expected_max_single_message_delivery_tx_weight {
        return Err(
            WeightsError::SingleMessageDeliveryWeightTooLarge {
                actual: actual_single_message_delivery_tx_weight,
                expected: expected_max_single_message_delivery_tx_weight,
            },
        );
    }
    let delivery_proof_overhead = weights.receive_messages_delivery_proof_overhead();
    let delivery_proof_messages_overhead =
        weights.receive_messages_delivery_proof_messages_overhead(1);
    let delivery_proof_relayers_overhead =
        weights.receive_messages_delivery_proof_relayers_overhead(1);
    if delivery_proof_overhead == 0 {
        return Err(WeightsError::ZeroDeliveryProofOverhead);
    }
    if delivery_proof_messages_overhead == 0 {
        return Err(WeightsError::ZeroDeliveryProofMessagesOverhead);
    }
    if delivery_proof_relayers_overhead == 0 {
        return Err(WeightsError::ZeroDeliveryProofRelayersOverhead);
    }
    let actual_messages_delivery_tx_weight = match delivery_proof_overhead.checked_add(
        delivery_proof_messages_overhead,
    ) {
        Some(partial) => match partial.checked_add(delivery_proof_relayers_overhead) {
            Some(total) => total,
            None => {
                return Err(WeightsError::MessagesDeliveryWeightOverflow);
            },
        },
        None => {
            return Err(WeightsError::MessagesDeliveryWeightOverflow);
        },
    };
    if actual_messages_delivery_tx_weight > expected_max_messages_delivery_tx_weight {
        return Err(
            WeightsError::MessagesDeliveryWeightTooLarge {
                actual: actual_messages_delivery_tx_weight,
                expected: expected_max_messages_delivery_tx_weight,
            },
        );
    }
    Ok(())
}

/// A non-degenerate benchmark outcome: sending costs something, cost grows
/// strictly with payload size (by at least one weight unit per KB), with
/// message count, with lane state and with relayer count, batching two
/// messages is cheaper than two separate transactions, and the doubled
/// one-message costs still fit in the weight range.
pub open spec fn valid_measurements(w: WorstCaseWeights) -> bool {
    &&& w.send_minimal_message > 0
    &&& w.send_1_kb_message + 15 <= w.send_16_kb_message
    &&& w.receive_single_message < w.receive_two_messages
    &&& w.receive_two_messages < 2 * w.receive_single_message
    &&& 2 * w.receive_single_message <= u64::MAX
    &&& w.receive_single_message < w.receive_single_message_with_outbound_lane_state
    &&& w.confirm_single_message < w.confirm_two_messages_by_single_relayer
    &&& w.confirm_two_messages_by_single_relayer < 2 * w.confirm_single_message
    &&& 2 * w.confirm_single_message <= u64::MAX
    &&& w.confirm_two_messages_by_single_relayer < w.confirm_two_messages_by_two_relayers
}

/// On a valid measurement set every derived overhead is strictly positive,
/// for any positive message and relayer count and any payload size.
pub proof fn lemma_valid_measurements_give_positive_overheads(
    w: WorstCaseWeights,
    message_size: u32,
    messages: MessageNonce,
    relayers: MessageNonce,
)
    requires
        valid_measurements(w),
        messages >= 1,
        relayers >= 1,
    ensures
        spec_send_message_overhead(w) > 0,
        spec_send_message_size_overhead(w, message_size) > 0,
        spec_receive_messages_proof_overhead(w) > 0,
        spec_receive_messages_proof_messages_overhead(w, messages) > 0,
        spec_receive_messages_proof_outbound_lane_state_overhead(w) > 0,
        spec_receive_messages_delivery_proof_overhead(w) > 0,
        spec_receive_messages_delivery_proof_messages_overhead(w, messages) > 0,
        spec_receive_messages_delivery_proof_relayers_overhead(w, relayers) > 0,
{
    let kb = spec_message_size_in_kb(message_size);
    let unit = spec_single_kb_weight(w);
    assert((1024 + message_size as int) / 1024 >= 1) by (nonlinear_arith);
    assert(sat_sub(w.send_16_kb_message, w.send_1_kb_message) / 15 >= 1) by (nonlinear_arith)
        requires
            sat_sub(w.send_16_kb_message, w.send_1_kb_message) >= 15,
    ;
    assert(kb * unit >= 1) by (nonlinear_arith)
        requires
            kb >= 1,
            unit >= 1,
    ;
    let proof_messages_unit = sat_sub(w.receive_two_messages, w.receive_single_message);
    assert(proof_messages_unit * messages >= 1) by (nonlinear_arith)
        requires
            proof_messages_unit >= 1,
            messages >= 1,
    ;
    let confirm_messages_unit = sat_sub(
        w.confirm_two_messages_by_single_relayer,
        w.confirm_single_message,
    );
    assert(confirm_messages_unit * messages >= 1) by (nonlinear_arith)
        requires
            confirm_messages_unit >= 1,
            messages >= 1,
    ;
    let relayers_unit = sat_sub(
        w.confirm_two_messages_by_two_relayers,
        w.confirm_two_messages_by_single_relayer,
    );
    assert(relayers_unit * relayers >= 1) by (nonlinear_arith)
        requires
            relayers_unit >= 1,
            relayers >= 1,
    ;
}

/// Rounding to KB units steps exactly at KB boundaries: any size below 1 KB
/// costs one unit, and any size in the second KB costs two.
pub proof fn lemma_send_message_size_overhead_kb_units(w: WorstCaseWeights, message_size: u32)
    ensures
        message_size < 1024 ==> spec_send_message_size_overhead(w, message_size)
            == spec_single_kb_weight(w),
        1024 <= message_size < 2048 && 2 * spec_single_kb_weight(w) <= u64::MAX
            ==> spec_send_message_size_overhead(w, message_size) == 2 * spec_single_kb_weight(w),
{
    let unit = spec_single_kb_weight(w);
    if message_size < 1024 {
        assert((1024 + message_size as int) / 1024 == 1) by (nonlinear_arith)
            requires
                0 <= message_size < 1024,
        ;
        assert(spec_message_size_in_kb(message_size) == 1);
        assert(sat_mul(1, unit) == unit);
    } else if message_size < 2048 {
        assert((1024 + message_size as int) / 1024 == 2) by (nonlinear_arith)
            requires
                1024 <= message_size < 2048,
        ;
        assert(spec_message_size_in_kb(message_size) == 2);
        if 2 * unit <= u64::MAX {
            assert(sat_mul(2, unit) == 2 * unit);
        }
    }
}

/// The per-message delivery overhead is linear in the message count, as long
/// as the product stays in the weight range.
pub proof fn lemma_receive_messages_proof_messages_overhead_linear(
    w: WorstCaseWeights,
    messages: MessageNonce,
)
    requires
        messages * spec_receive_messages_proof_messages_overhead(w, 1) <= u64::MAX,
    ensures
        spec_receive_messages_proof_messages_overhead(w, messages) == messages
            * spec_receive_messages_proof_messages_overhead(w, 1),
{
    let unit = sat_sub(w.receive_two_messages, w.receive_single_message);
    assert(spec_receive_messages_proof_messages_overhead(w, 1) == unit);
    assert(unit * messages == messages * unit) by (nonlinear_arith);
    assert(spec_receive_messages_proof_messages_overhead(w, messages) == messages * unit);
}

/// The per-relayer overhead for a single relayer entry is exactly the cost
/// step from one relayer to two, whenever that step does not go backwards.
pub proof fn lemma_receive_messages_delivery_proof_relayers_overhead_single(w: WorstCaseWeights)
    requires
        w.confirm_two_messages_by_single_relayer <= w.confirm_two_messages_by_two_relayers,
    ensures
        spec_receive_messages_delivery_proof_relayers_overhead(w, 1)
            == w.confirm_two_messages_by_two_relayers - w.confirm_two_messages_by_single_relayer,
{
}

/// On an inverted benchmark, where a two-message delivery costs more than two
/// one-message deliveries, the fixed delivery overhead clamps to zero instead
/// of underflowing.
pub proof fn lemma_receive_messages_proof_overhead_clamps_to_zero(w: WorstCaseWeights)
    requires
        w.receive_two_messages > 2 * w.receive_single_message,
    ensures
        spec_receive_messages_proof_overhead(w) == 0,
{
}

/// Idempotence: every derived figure is a pure function of the measurement
/// set, so repeated queries over equal measurement sets are bound by the
/// query contracts to return equal values.
pub proof fn lemma_derived_overheads_idempotent(
    w1: WorstCaseWeights,
    w2: WorstCaseWeights,
    message_size: u32,
    messages: MessageNonce,
    relayers: MessageNonce,
)
    requires
        w1 == w2,
    ensures
        spec_send_message_overhead(w1) == spec_send_message_overhead(w2),
        spec_send_message_size_overhead(w1, message_size) == spec_send_message_size_overhead(
            w2,
            message_size,
        ),
        spec_receive_messages_proof_overhead(w1) == spec_receive_messages_proof_overhead(w2),
        spec_receive_messages_proof_messages_overhead(w1, messages)
            == spec_receive_messages_proof_messages_overhead(w2, messages),
        spec_receive_messages_proof_outbound_lane_state_overhead(w1)
            == spec_receive_messages_proof_outbound_lane_state_overhead(w2),
        spec_receive_messages_delivery_proof_overhead(w1)
            == spec_receive_messages_delivery_proof_overhead(w2),
        spec_receive_messages_delivery_proof_messages_overhead(w1, messages)
            == spec_receive_messages_delivery_proof_messages_overhead(w2, messages),
        spec_receive_messages_delivery_proof_relayers_overhead(w1, relayers)
            == spec_receive_messages_delivery_proof_relayers_overhead(w2, relayers),
{
}

} // verus!


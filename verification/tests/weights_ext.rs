//! Tests of the derived overhead figures and the consistency check.

use message_lane_weights::weights::WorstCaseWeights;
use message_lane_weights::weights_ext::ensure_weights_are_correct;
use message_lane_weights::weights_ext::WeightInfoExt;
use message_lane_weights::weights_ext::WeightsError;

/// A valid measurement set; the receive-proof values are the sample ones of
/// the consistency-check scenario (single-message delivery weight 120).
fn sample_weights() -> WorstCaseWeights {
    WorstCaseWeights {
        send_minimal_message: 9,
        send_1_kb_message: 100,
        send_16_kb_message: 400,
        receive_single_message: 100,
        receive_two_messages: 150,
        receive_single_message_with_outbound_lane_state: 120,
        confirm_single_message: 80,
        confirm_two_messages_by_single_relayer: 130,
        confirm_two_messages_by_two_relayers: 160,
    }
}

#[test]
fn send_message_overhead_is_minimal_send_cost() {
    assert_eq!(sample_weights().send_message_overhead(), 9);
}

#[test]
fn send_message_size_overhead_charges_one_unit_for_empty_message() {
    // Unit cost is (400 - 100) / 15 = 20, and size 0 counts as one KB unit.
    assert_eq!(sample_weights().send_message_size_overhead(0), 20);
}

#[test]
fn send_message_size_overhead_is_flat_within_the_first_kb() {
    let w = sample_weights();
    let at_zero = w.send_message_size_overhead(0);
    assert_eq!(w.send_message_size_overhead(1), at_zero);
    assert_eq!(w.send_message_size_overhead(500), at_zero);
    assert_eq!(w.send_message_size_overhead(1023), at_zero);
}

#[test]
fn send_message_size_overhead_steps_at_kb_boundary() {
    let w = sample_weights();
    assert_eq!(w.send_message_size_overhead(1024), 2 * w.send_message_size_overhead(0));
    assert_eq!(w.send_message_size_overhead(1024), 40);
}

#[test]
fn send_message_size_overhead_of_large_message() {
    // (1024 + 4096) / 1024 = 5 KB units at 20 weight each.
    assert_eq!(sample_weights().send_message_size_overhead(4096), 100);
}

#[test]
fn receive_messages_proof_overhead_solves_the_linear_system() {
    // 2 * cost(1 msg) - cost(2 msgs) = 200 - 150.
    assert_eq!(sample_weights().receive_messages_proof_overhead(), 50);
}

#[test]
fn receive_messages_proof_messages_overhead_is_linear_in_count() {
    let w = sample_weights();
    assert_eq!(
        w.receive_messages_proof_messages_overhead(2),
        2 * w.receive_messages_proof_messages_overhead(1)
    );
    assert_eq!(w.receive_messages_proof_messages_overhead(1), 50);
    assert_eq!(w.receive_messages_proof_messages_overhead(0), 0);
}

#[test]
fn receive_messages_proof_outbound_lane_state_overhead_is_the_cost_step() {
    assert_eq!(sample_weights().receive_messages_proof_outbound_lane_state_overhead(), 20);
}

#[test]
fn receive_messages_delivery_proof_overhead_solves_the_linear_system() {
    // 2 * cost(1 msg, 1 relayer) - cost(2 msgs, 1 relayer) = 160 - 130.
    assert_eq!(sample_weights().receive_messages_delivery_proof_overhead(), 30);
}

#[test]
fn receive_messages_delivery_proof_messages_overhead_is_linear_in_count() {
    let w = sample_weights();
    assert_eq!(w.receive_messages_delivery_proof_messages_overhead(1), 50);
    assert_eq!(w.receive_messages_delivery_proof_messages_overhead(3), 150);
}

#[test]
fn receive_messages_delivery_proof_relayers_overhead_is_the_relayer_cost_step() {
    // cost(2 msgs, 2 relayers) - cost(2 msgs, 1 relayer) = 160 - 130.
    let w = sample_weights();
    assert_eq!(w.receive_messages_delivery_proof_relayers_overhead(1), 30);
    assert_eq!(w.receive_messages_delivery_proof_relayers_overhead(4), 120);
}

#[test]
fn derived_overheads_are_positive_on_valid_measurements() {
    let w = sample_weights();
    assert!(w.send_message_overhead() > 0);
    assert!(w.send_message_size_overhead(0) > 0);
    assert!(w.send_message_size_overhead(u32::MAX) > 0);
    assert!(w.receive_messages_proof_overhead() > 0);
    assert!(w.receive_messages_proof_messages_overhead(1) > 0);
    assert!(w.receive_messages_proof_outbound_lane_state_overhead() > 0);
    assert!(w.receive_messages_delivery_proof_overhead() > 0);
    assert!(w.receive_messages_delivery_proof_messages_overhead(1) > 0);
    assert!(w.receive_messages_delivery_proof_relayers_overhead(1) > 0);
}

#[test]
fn repeated_queries_return_identical_values() {
    let w = sample_weights();
    assert_eq!(w.send_message_overhead(), w.send_message_overhead());
    assert_eq!(w.send_message_size_overhead(777), w.send_message_size_overhead(777));
    assert_eq!(w.receive_messages_proof_overhead(), w.receive_messages_proof_overhead());
    assert_eq!(
        w.receive_messages_proof_messages_overhead(5),
        w.receive_messages_proof_messages_overhead(5)
    );
    assert_eq!(
        w.receive_messages_delivery_proof_relayers_overhead(5),
        w.receive_messages_delivery_proof_relayers_overhead(5)
    );
    assert_eq!(
        ensure_weights_are_correct(&w, 120, 110),
        ensure_weights_are_correct(&w, 120, 110)
    );
}

#[test]
fn receive_messages_proof_overhead_clamps_to_zero_on_inverted_benchmark() {
    // Two messages cost more than two one-message transactions: the
    // saturating subtraction yields zero instead of underflowing.
    let w = WorstCaseWeights { receive_two_messages: 250, ..sample_weights() };
    assert_eq!(w.receive_messages_proof_overhead(), 0);
}

#[test]
fn lane_state_overhead_clamps_to_zero_on_inverted_benchmark() {
    let w = WorstCaseWeights {
        receive_single_message_with_outbound_lane_state: 90,
        ..sample_weights()
    };
    assert_eq!(w.receive_messages_proof_outbound_lane_state_overhead(), 0);
}

#[test]
fn per_message_overhead_saturates_at_the_weight_range() {
    let w = sample_weights();
    assert_eq!(w.receive_messages_proof_messages_overhead(u64::MAX), u64::MAX);
    assert_eq!(w.receive_messages_delivery_proof_relayers_overhead(u64::MAX), u64::MAX);
}

#[test]
fn checker_passes_when_ceilings_hold() {
    let w = sample_weights();
    // Actual single-message delivery weight is 50 + 50 + 20 = 120 and the
    // confirmation weight is 30 + 50 + 30 = 110.
    assert_eq!(ensure_weights_are_correct(&w, 120, 110), Ok(()));
    assert_eq!(ensure_weights_are_correct(&w, 1000, 1000), Ok(()));
}

#[test]
fn checker_rejects_delivery_ceiling_below_actual_weight() {
    let w = sample_weights();
    assert_eq!(
        ensure_weights_are_correct(&w, 119, 1000),
        Err(WeightsError::SingleMessageDeliveryWeightTooLarge { actual: 120, expected: 119 })
    );
}

#[test]
fn checker_rejects_confirmation_ceiling_below_actual_weight() {
    let w = sample_weights();
    assert_eq!(
        ensure_weights_are_correct(&w, 120, 109),
        Err(WeightsError::MessagesDeliveryWeightTooLarge { actual: 110, expected: 109 })
    );
}

#[test]
fn checker_rejects_zero_send_overhead() {
    let w = WorstCaseWeights { send_minimal_message: 0, ..sample_weights() };
    assert_eq!(
        ensure_weights_are_correct(&w, 1000, 1000),
        Err(WeightsError::ZeroSendMessageOverhead)
    );
}

#[test]
fn checker_rejects_zero_send_size_overhead() {
    // A slope below 15 weight units over the 15 KB calibration span rounds
    // down to a zero per-KB cost.
    let w = WorstCaseWeights { send_16_kb_message: 114, ..sample_weights() };
    assert_eq!(
        ensure_weights_are_correct(&w, 1000, 1000),
        Err(WeightsError::ZeroSendMessageSizeOverhead)
    );
}

#[test]
fn checker_rejects_zero_receive_proof_overhead() {
    let w = WorstCaseWeights { receive_two_messages: 200, ..sample_weights() };
    assert_eq!(
        ensure_weights_are_correct(&w, 1000, 1000),
        Err(WeightsError::ZeroReceiveProofOverhead)
    );
}

#[test]
fn checker_rejects_zero_receive_proof_messages_overhead() {
    let w = WorstCaseWeights { receive_two_messages: 100, ..sample_weights() };
    assert_eq!(
        ensure_weights_are_correct(&w, 1000, 1000),
        Err(WeightsError::ZeroReceiveProofMessagesOverhead)
    );
}

#[test]
fn checker_rejects_zero_lane_state_overhead() {
    let w = WorstCaseWeights {
        receive_single_message_with_outbound_lane_state: 100,
        ..sample_weights()
    };
    assert_eq!(
        ensure_weights_are_correct(&w, 1000, 1000),
        Err(WeightsError::ZeroReceiveProofOutboundLaneStateOverhead)
    );
}

#[test]
fn checker_rejects_zero_delivery_proof_overhead() {
    let w = WorstCaseWeights { confirm_two_messages_by_single_relayer: 160, ..sample_weights() };
    assert_eq!(
        ensure_weights_are_correct(&w, 1000, 1000),
        Err(WeightsError::ZeroDeliveryProofOverhead)
    );
}

#[test]
fn checker_rejects_zero_delivery_proof_messages_overhead() {
    let w = WorstCaseWeights { confirm_two_messages_by_single_relayer: 80, ..sample_weights() };
    assert_eq!(
        ensure_weights_are_correct(&w, 1000, 1000),
        Err(WeightsError::ZeroDeliveryProofMessagesOverhead)
    );
}

#[test]
fn checker_rejects_zero_delivery_proof_relayers_overhead() {
    let w = WorstCaseWeights { confirm_two_messages_by_two_relayers: 130, ..sample_weights() };
    assert_eq!(
        ensure_weights_are_correct(&w, 1000, 1000),
        Err(WeightsError::ZeroDeliveryProofRelayersOverhead)
    );
}

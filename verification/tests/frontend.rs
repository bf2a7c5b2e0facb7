use ngap_frontend::codes::{ERR_ENCODING_FAILED, ERR_EXCLUDED_PDU, ERR_INVALID_ARG,
    ERR_OUTPUT_TRUNCATED, ERR_SYNTHESIS_FAILED, PROBE_FAILED};
use ngap_frontend::entropy::{build_bounded_entropy, ENTROPY_CAP};
use ngap_frontend::message::{is_excluded, pdu_identifier, StructuredMessage};
use ngap_frontend::model::MessageModel;
use ngap_frontend::pipeline::{measure_reencoded_length, synthesize_and_encode,
    synthesize_exclude_and_encode};
use ngap_frontend::sample::SamplePdu;

#[test]
fn error_code_table() {
    assert_eq!(ERR_INVALID_ARG, -2);
    assert_eq!(ERR_SYNTHESIS_FAILED, -3);
    assert_eq!(ERR_ENCODING_FAILED, -4);
    assert_eq!(ERR_OUTPUT_TRUNCATED, -5);
    assert_eq!(ERR_EXCLUDED_PDU, -6);
    assert_eq!(PROBE_FAILED, -1);
}

#[test]
fn empty_input_synthesizes_deterministically() {
    let input: Vec<u8> = vec![];
    let mut out1 = vec![0xAAu8; 16];
    let mut out2 = vec![0xAAu8; 16];
    let r1 = synthesize_and_encode::<SamplePdu>(&input, &mut out1);
    let r2 = synthesize_and_encode::<SamplePdu>(&input, &mut out2);
    assert_eq!(r1, 2);
    assert_eq!(r1, r2);
    assert_eq!(out1, out2);
    assert_eq!(&out1[..2], &[0x00, 0x00]);
    assert_eq!(&out1[2..], &[0xAAu8; 14][..]);
}

#[test]
fn encodes_drawn_category_and_code() {
    // 4 % 3 picks the successful-outcome category; 7 is the procedure code.
    let input = vec![4u8, 7u8];
    let mut out = vec![0xAAu8; 8];
    let r = synthesize_and_encode::<SamplePdu>(&input, &mut out);
    assert_eq!(r, 2);
    assert_eq!(&out[..2], &[0x40, 7]);
    assert_eq!(&out[2..], &[0xAAu8; 6][..]);
}

#[test]
fn bounded_entry_is_deterministic() {
    let input = vec![13u8, 200u8, 77u8];
    let mut out1 = vec![0u8; 4];
    let mut out2 = vec![0u8; 4];
    let r1 = synthesize_and_encode::<SamplePdu>(&input, &mut out1);
    let r2 = synthesize_and_encode::<SamplePdu>(&input, &mut out2);
    assert_eq!(r1, r2);
    assert_eq!(out1, out2);
}

#[test]
fn truncation_leaves_buffer_untouched() {
    let input = vec![4u8, 7u8];
    let mut out = vec![0xAAu8; 1];
    let r = synthesize_and_encode::<SamplePdu>(&input, &mut out);
    assert_eq!(r, ERR_OUTPUT_TRUNCATED);
    assert_eq!(out, vec![0xAAu8]);
}

#[test]
fn zero_capacity_buffer_reports_truncation() {
    let input = vec![0u8];
    let mut out: Vec<u8> = vec![];
    let r = synthesize_and_encode::<SamplePdu>(&input, &mut out);
    assert_eq!(r, ERR_OUTPUT_TRUNCATED);
    assert!(out.is_empty());
}

#[test]
fn exclusion_match_returns_exclusion_code() {
    // 4 % 3 = 1: successful outcome, code 7, identifier 512 + 7.
    let input = vec![4u8, 7u8];
    let exclusions = vec![1usize, 519usize, 9999usize];
    let mut out = vec![0xAAu8; 8];
    let r = synthesize_exclude_and_encode::<SamplePdu>(&input, &exclusions, &mut out);
    assert_eq!(r, ERR_EXCLUDED_PDU);
    assert_eq!(out, vec![0xAAu8; 8]);
}

#[test]
fn exclusion_miss_encodes() {
    let input = vec![4u8, 7u8];
    let exclusions = vec![518usize, 520usize];
    let mut out = vec![0u8; 8];
    let r = synthesize_exclude_and_encode::<SamplePdu>(&input, &exclusions, &mut out);
    assert_eq!(r, 2);
    assert_eq!(&out[..2], &[0x40, 7]);
}

#[test]
fn exclusion_duplicates_are_harmless() {
    let input = vec![4u8, 7u8];
    let exclusions = vec![519usize, 519usize];
    let mut out = vec![0u8; 8];
    let r = synthesize_exclude_and_encode::<SamplePdu>(&input, &exclusions, &mut out);
    assert_eq!(r, ERR_EXCLUDED_PDU);
}

#[test]
fn unbounded_synthesis_falls_back_to_zero() {
    // With no input bytes every decision falls back to zero:
    // initiating message, code 0, identifier 256.
    let input: Vec<u8> = vec![];
    let exclusions = vec![256usize];
    let mut out = vec![0u8; 8];
    let r = synthesize_exclude_and_encode::<SamplePdu>(&input, &exclusions, &mut out);
    assert_eq!(r, ERR_EXCLUDED_PDU);
}

#[test]
fn probe_round_trip_matches_encode_length() {
    // 2 % 3 = 2: unsuccessful outcome, code 9.
    let input = vec![2u8, 9u8];
    let mut out = vec![0u8; 8];
    let r = synthesize_and_encode::<SamplePdu>(&input, &mut out);
    assert!(r > 0);
    let wire = out[..r as usize].to_vec();
    let probed = measure_reencoded_length::<SamplePdu>(&wire);
    assert_eq!(probed, r);
}

#[test]
fn probe_reports_canonical_length() {
    // Trailing bytes past the message are not part of the re-encoding.
    let wire = vec![0x40u8, 7u8, 0xFFu8];
    assert_eq!(measure_reencoded_length::<SamplePdu>(&wire), 2);
}

#[test]
fn probe_rejects_malformed_input() {
    // A category tag outside the choice's bound.
    assert_eq!(measure_reencoded_length::<SamplePdu>(&vec![0xC0u8, 1u8]), PROBE_FAILED);
    // Too short for the code octet.
    assert_eq!(measure_reencoded_length::<SamplePdu>(&vec![5u8]), PROBE_FAILED);
    // Empty input.
    assert_eq!(measure_reencoded_length::<SamplePdu>(&vec![]), PROBE_FAILED);
}

#[test]
fn input_at_entropy_cap_synthesizes() {
    let input = vec![1u8; ENTROPY_CAP];
    let mut out = vec![0u8; 4];
    let r = synthesize_and_encode::<SamplePdu>(&input, &mut out);
    assert_eq!(r, 2);
    assert_eq!(&out[..2], &[0x40, 1]);
}

#[test]
fn input_past_entropy_cap_is_truncated_not_underflowed() {
    let input = vec![1u8; ENTROPY_CAP + 1];
    let mut out = vec![0u8; 4];
    let r = synthesize_and_encode::<SamplePdu>(&input, &mut out);
    assert_eq!(r, 2);
    assert_eq!(&out[..2], &[0x40, 1]);
}

#[test]
fn bounded_entropy_pads_with_zeros() {
    let entropy = build_bounded_entropy(&vec![9u8, 8u8]);
    assert_eq!(entropy.len(), ENTROPY_CAP);
    assert_eq!(entropy[0], 9);
    assert_eq!(entropy[1], 8);
    assert_eq!(entropy[2], 0);
    assert_eq!(entropy[ENTROPY_CAP - 1], 0);
}

#[test]
fn pdu_identifier_offsets() {
    assert_eq!(pdu_identifier(&StructuredMessage::InitiatingMessage(5)), 261);
    assert_eq!(pdu_identifier(&StructuredMessage::SuccessfulOutcome(0)), 512);
    assert_eq!(pdu_identifier(&StructuredMessage::UnsuccessfulOutcome(255)), 1023);
}

#[test]
fn is_excluded_scans_linearly() {
    assert!(!is_excluded(7, &vec![]));
    assert!(!is_excluded(7, &vec![1usize, 2usize]));
    assert!(is_excluded(7, &vec![1usize, 7usize]));
}

#[test]
fn bounded_synthesis_fails_on_short_stream() {
    assert!(<SamplePdu as MessageModel>::synthesize_bounded(&vec![1u8]).is_none());
    assert!(<SamplePdu as MessageModel>::synthesize_bounded(&vec![]).is_none());
    assert!(<SamplePdu as MessageModel>::synthesize_bounded(&vec![1u8, 2u8]).is_some());
}

#[test]
fn decode_reads_tag_and_code() {
    let decoded = <SamplePdu as MessageModel>::decode(&vec![0x80u8, 5u8]).unwrap();
    assert_eq!(decoded.descriptor(), StructuredMessage::UnsuccessfulOutcome(5));
    assert!(<SamplePdu as MessageModel>::decode(&vec![0xC0u8, 5u8]).is_none());
}

#[test]
fn encode_packs_tag_and_code() {
    let pdu = SamplePdu { message: StructuredMessage::InitiatingMessage(0) };
    assert_eq!(pdu.encode().unwrap(), vec![0x00, 0x00]);
    let pdu = SamplePdu { message: StructuredMessage::UnsuccessfulOutcome(0xAB) };
    assert_eq!(pdu.encode().unwrap(), vec![0x80, 0xAB]);
}

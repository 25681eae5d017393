//! Tests of the demonstration contracts' logic: the arithmetic verifier, the
//! relayed answer, the fixed-number query and the proof-verification data
//! plumbing.

use ics999::demo::{call_verify_truth_method, query_verify_truth, QueryVerifyTruthMsgResponse};
use ics999::host::return_random_num;
use ics999::zk::{pad_bytes, verify_proof_response};

#[test]
fn test_verify_truth_invalid_case() {
    // Invalid inputs
    let response = query_verify_truth(1, 2, 89);
    assert_eq!(response.valid, false);
}

#[test]
fn test_verify_truth_valid_case() {
    // Valid inputs
    let response = query_verify_truth(10, 2, 12);
    assert_eq!(response.valid, true);
}

#[test]
fn contract_test_verify_truth_valid_case() {
    // Valid inputs
    let response = query_verify_truth(10, 2, 12);
    assert_eq!(response.valid, true);
}

#[test]
fn call_verify_truth_method_relays_answer() {
    let yes = call_verify_truth_method(QueryVerifyTruthMsgResponse { valid: true });
    assert_eq!(yes.result, true);
    let no = call_verify_truth_method(QueryVerifyTruthMsgResponse { valid: false });
    assert_eq!(no.result, false);
}

#[test]
fn return_random_num_is_fixed() {
    assert_eq!(return_random_num().result, 2356);
}

#[test]
fn pad_bytes_fills_with_zeroes() {
    let padded = pad_bytes(&vec![1, 2, 3], 6);
    assert_eq!(padded, vec![1, 2, 3, 0, 0, 0]);
}

#[test]
fn pad_bytes_keeps_exact_width() {
    let bytes: Vec<u8> = (0..96).collect();
    let padded = pad_bytes(&bytes, 96);
    assert_eq!(padded, bytes);
}

#[test]
fn verify_proof_response_texts() {
    assert_eq!(verify_proof_response(true).result, "Done");
    assert_eq!(verify_proof_response(false).result, "Not Done");
}

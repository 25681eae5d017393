//! The data plumbing of the zero-knowledge proof-verification demonstration.
//!
//! The pairing check itself is a thin call into an external cryptographic
//! library and stays outside this crate's reasoning; what is verified here is
//! the byte plumbing around it — the serialized key and proof shapes, the
//! padding of their fields to the fixed widths the curve decoder expects —
//! and what is answered for each verdict of the check.

use vstd::prelude::*;

verus! {

/// A contract's stored configuration: its administrator.
#[derive(Debug)]
pub struct Config {
    pub admin_address: String,
}

/// The serialized verification key: each field carries the uncompressed
/// bytes of a curve point.
#[derive(Debug)]
pub struct VkeyStr {
    pub alpha_1: Vec<u8>,
    pub beta_2: Vec<u8>,
    pub gamma_2: Vec<u8>,
    pub delta_2: Vec<u8>,
    pub ic: Vec<Vec<u8>>,
}

/// The serialized proof: the uncompressed bytes of its three curve points.
#[derive(Debug)]
pub struct ProofStr {
    pub pi_a: Vec<u8>,
    pub pi_b: Vec<u8>,
    pub pi_c: Vec<u8>,
}

/// The answer to a proof-verification query.
#[derive(Debug)]
pub struct VerifyProofResponse {
    pub result: String,
}

/// Pads serialized point bytes with zeroes up to the fixed width the curve
/// decoder expects.  Bytes longer than the width are not accepted.
pub fn pad_bytes(src: &Vec<u8>, width: usize) -> (r: Vec<u8>)
    requires
        src@.len() <= width,
    ensures
        r@.len() == width,
        forall|i: int| 0 <= i < src@.len() ==> r@[i] == src@[i],
        forall|i: int| src@.len() <= i < width ==> r@[i] == 0,
{
    let mut r: Vec<u8> = Vec::new();
    let mut i: usize = 0;
    while i < src.len()
        invariant
            i <= src@.len(),
            r@ == src@.subrange(0, i as int),
        decreases src@.len() - i,
    {
        r.push(src[i]);
        i += 1;
        proof {
            assert(r@ =~= src@.subrange(0, i as int));
        }
    }
    proof {
        assert(r@ =~= src@);
    }
    while r.len() < width
        invariant
            src@.len() <= r@.len() <= width,
            forall|i: int| 0 <= i < src@.len() ==> r@[i] == src@[i],
            forall|i: int| src@.len() <= i < r@.len() ==> r@[i] == 0,
        decreases width - r@.len(),
    {
        r.push(0);
    }
    r
}

/// The answer given for each verdict of the pairing check.
pub fn verify_proof_response(verified: bool) -> (r: VerifyProofResponse)
    ensures
        verified ==> r.result@ == "Done"@,
        !verified ==> r.result@ == "Not Done"@,
{
    if verified {
        VerifyProofResponse { result: "Done".to_owned() }
    } else {
        VerifyProofResponse { result: "Not Done".to_owned() }
    }
}

} // verus!

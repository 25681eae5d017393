//! The same-chain arithmetic-verification demonstration pair: a verifier
//! contract that checks a claimed sum, and a business contract that asks it
//! to.

use vstd::prelude::*;

verus! {

/// Instantiating either demonstration contract records its administrator.
#[derive(Debug)]
pub struct InstantiateMsg {
    pub admin_address: String,
}

/// What the demonstration business contract can be asked to do.
#[derive(Debug)]
pub enum ExecuteMsg {
    CustomMsg { val: String },
}

/// What the demonstration business contract can be asked.
#[derive(Debug)]
pub enum QueryMsg {
    /// Ask the verifier contract at `contract_address` whether
    /// `a + b == expected_sum`.
    CallVerifyTruthMethod { contract_address: String, a: u64, b: u64, expected_sum: u64 },
}

/// The answer the business contract relays back to its caller.
#[derive(Debug)]
pub struct CallVerifyTruthMethodResponse {
    pub result: bool,
}

/// The query the business contract sends to the verifier contract.
#[derive(Debug)]
pub enum QueryVerifyTruthMsg {
    VerifyTruth { a: u64, b: u64, sum: u64 },
}

/// The verifier contract's answer, as the business contract decodes it.
#[derive(Debug)]
pub struct QueryVerifyTruthMsgResponse {
    pub valid: bool,
}

/// The verifier contract's answer, as the verifier itself builds it.
#[derive(Debug)]
pub struct VerifyTruthResponse {
    pub valid: bool,
}

/// Checks whether the sum of `a` and `b` equals the claimed `sum`.
pub fn query_verify_truth(a: u64, b: u64, sum: u64) -> (r: VerifyTruthResponse)
    requires
        a + b <= u64::MAX,
    ensures
        r.valid == (a + b == sum),
{
    let mut is_valid_sum = false;

    if a + b == sum {
        is_valid_sum = true;
    }

    VerifyTruthResponse { valid: is_valid_sum }
}

/// Relays the verifier contract's answer to the business contract's caller.
/// The cross-contract query itself is the host environment's work; this is
/// what is done with whatever it answered.
pub fn call_verify_truth_method(response: QueryVerifyTruthMsgResponse) -> (r:
    CallVerifyTruthMethodResponse)
    ensures
        r.result == response.valid,
{
    CallVerifyTruthMethodResponse { result: response.valid }
}

} // verus!

//! Call data for initializer calls: a four-byte selector followed by the
//! encoded arguments.

use vstd::prelude::*;
use vstd::string::StringSliceAdditionalSpecFns;
use crate::address::Address;

verus! {

/// The Keccak-256 digest that `alloy_primitives::keccak256` gives for these
/// bytes.
pub uninterp spec fn keccak256_digest(data: Seq<u8>) -> Seq<u8>;

/// What `alloy_sol_types::SolValue::abi_encode_params` gives for the
/// parameter list `(uint256, uint256, address, address)`.
pub uninterp spec fn abi_params_limits_and_accounts(
    first: nat,
    second: nat,
    third: Seq<u8>,
    fourth: Seq<u8>,
) -> Seq<u8>;

/// What `alloy_sol_types::SolValue::abi_encode_params` gives for the
/// parameter list `(address, address, address, address)`.
pub uninterp spec fn abi_params_four_accounts(
    first: Seq<u8>,
    second: Seq<u8>,
    third: Seq<u8>,
    fourth: Seq<u8>,
) -> Seq<u8>;

/// Calls `alloy_primitives::keccak256`. Trusted: the result is the digest of
/// the given bytes, and a digest has 32 bytes (its type is `B256`).
#[verifier::external_body]
fn keccak256(data: &[u8]) -> (result: Vec<u8>)
    ensures
        result@ == keccak256_digest(data@),
        result@.len() == 32,
{
    alloy_primitives::keccak256(data).to_vec()
}

/// Calls `SolValue::abi_encode_params` on a tuple of two unsigned integers and
/// two addresses. Trusted: the result is that function's encoding of the four
/// values in this order.
#[verifier::external_body]
fn encode_limits_and_accounts(first: u64, second: u64, third: &Address, fourth: &Address) -> (result:
    Vec<u8>)
    ensures
        result@ == abi_params_limits_and_accounts(first as nat, second as nat, third@, fourth@),
{
    let a = alloy_primitives::U256::from(first);
    let b = alloy_primitives::U256::from(second);
    let c = alloy_primitives::Address::from(third.bytes);
    let d = alloy_primitives::Address::from(fourth.bytes);
    alloy_sol_types::SolValue::abi_encode_params(&(a, b, c, d))
}

/// Calls `SolValue::abi_encode_params` on a tuple of four addresses. Trusted:
/// the result is that function's encoding of the four values in this order.
#[verifier::external_body]
fn encode_four_accounts(first: &Address, second: &Address, third: &Address, fourth: &Address) -> (result:
    Vec<u8>)
    ensures
        result@ == abi_params_four_accounts(first@, second@, third@, fourth@),
{
    let a = alloy_primitives::Address::from(first.bytes);
    let b = alloy_primitives::Address::from(second.bytes);
    let c = alloy_primitives::Address::from(third.bytes);
    let d = alloy_primitives::Address::from(fourth.bytes);
    alloy_sol_types::SolValue::abi_encode_params(&(a, b, c, d))
}

/// The selector of a function: the first four bytes of a digest of its
/// signature.
pub open spec fn selector_of(digest: Seq<u8>) -> Seq<u8> {
    digest.subrange(0, 4)
}

/// Call data: the selector, then the encoded arguments.
pub open spec fn call_data_of(selector: Seq<u8>, params: Seq<u8>) -> Seq<u8> {
    selector + params
}

/// Cuts the selector out of a signature's digest. A digest of fewer than
/// four bytes has none.
pub fn selector_from_digest(digest: &Vec<u8>) -> (result: Option<Vec<u8>>)
    ensures
        digest@.len() < 4 ==> result is None,
        digest@.len() >= 4 ==> result is Some && result->0@ == selector_of(digest@),
{
    if digest.len() < 4 {
        return None;
    }
    let mut out: Vec<u8> = Vec::new();
    let mut i: usize = 0;
    while i < 4
        invariant
            i <= 4,
            digest@.len() >= 4,
            out@ == digest@.subrange(0, i as int),
        decreases 4 - i,
    {
        out.push(digest[i]);
        assert(out@ =~= digest@.subrange(0, i + 1));
        i = i + 1;
    }
    Some(out)
}

/// Joins a selector and encoded arguments into call data.
pub fn assemble_call_data(selector: &Vec<u8>, params: &Vec<u8>) -> (result: Vec<u8>)
    ensures
        result@ == call_data_of(selector@, params@),
{
    let mut out: Vec<u8> = Vec::new();
    let mut i: usize = 0;
    while i < selector.len()
        invariant
            i <= selector@.len(),
            out@ == selector@.subrange(0, i as int),
        decreases selector@.len() - i,
    {
        out.push(selector[i]);
        assert(out@ =~= selector@.subrange(0, i + 1));
        i = i + 1;
    }
    assert(out@ =~= selector@);
    let mut j: usize = 0;
    while j < params.len()
        invariant
            j <= params@.len(),
            out@ == selector@ + params@.subrange(0, j as int),
        decreases params@.len() - j,
    {
        out.push(params[j]);
        assert(out@ =~= selector@ + params@.subrange(0, j + 1));
        j = j + 1;
    }
    assert(out@ =~= selector@ + params@);
    out
}

/// The selector of the function with the given signature, such as
/// `initialize(address,address,address,address)`.
pub fn selector(signature: &str) -> (result: Vec<u8>)
    ensures
        result@ == selector_of(keccak256_digest(signature.spec_bytes())),
        result@.len() == 4,
{
    let digest = keccak256(signature.as_bytes());
    selector_from_digest(&digest).unwrap()
}

/// The call data of the strategy's initializer,
/// `initialize(uint256,uint256,address,address)`: two deposit limits, the
/// token, and the pauser registry.
pub fn strategy_initializer_call(
    first_limit: u64,
    second_limit: u64,
    token: &Address,
    pauser_registry: &Address,
) -> (result: Vec<u8>)
    ensures
        result@ == call_data_of(
            selector_of(
                keccak256_digest("initialize(uint256,uint256,address,address)".spec_bytes()),
            ),
            abi_params_limits_and_accounts(
                first_limit as nat,
                second_limit as nat,
                token@,
                pauser_registry@,
            ),
        ),
{
    let head = selector("initialize(uint256,uint256,address,address)");
    let params = encode_limits_and_accounts(first_limit, second_limit, token, pauser_registry);
    assemble_call_data(&head, &params)
}

/// The call data of the task manager's initializer,
/// `initialize(address,address,address,address)`: the pauser registry, the
/// owner, the aggregator, and the task generator.
pub fn task_manager_initializer_call(
    pauser_registry: &Address,
    owner: &Address,
    aggregator: &Address,
    generator: &Address,
) -> (result: Vec<u8>)
    ensures
        result@ == call_data_of(
            selector_of(keccak256_digest("initialize(address,address,address,address)".spec_bytes())),
            abi_params_four_accounts(pauser_registry@, owner@, aggregator@, generator@),
        ),
{
    let head = selector("initialize(address,address,address,address)");
    let params = encode_four_accounts(pauser_registry, owner, aggregator, generator);
    assemble_call_data(&head, &params)
}

} // verus!

//! The balance oracle client: the read-only `balanceOf(owner)` contract call,
//! and how its answer is read and judged against the threshold.
use alloy_sol_types::sol_data::Uint;
use alloy_sol_types::SolType;
use vstd::prelude::*;

verus! {

/// The 4-byte selector of `balanceOf(address)`.
pub open spec fn balance_of_selector() -> Seq<u8> {
    seq![0x70u8, 0xa0u8, 0x82u8, 0x31u8]
}

/// The ABI call data of `balanceOf(owner)`: the selector, then the address
/// left-padded with zeros to one 32-byte word.
pub open spec fn balance_of_call(owner: Seq<u8>) -> Seq<u8> {
    balance_of_selector() + Seq::new(12, |i: int| 0u8) + owner
}

/// The unsigned integer that a big-endian byte string stands for.
pub open spec fn be_value(s: Seq<u8>) -> nat
    decreases s.len(),
{
    if s.len() == 0 {
        0
    } else {
        be_value(s.drop_last()) * 256 + s.last() as nat
    }
}

/// The 32-byte big-endian word of the `uint256` that an ABI-encoded answer
/// holds, or none where the answer does not decode as one.
pub uninterp spec fn abi_uint_word(data: Seq<u8>) -> Option<Seq<u8>>;

/// Relies on alloy_sol_types's SolType::abi_decode for `uint256` to read the
/// answer of the contract call; the value is handed back as big-endian bytes.
#[verifier::external_body]
fn decode_uint_word(data: &[u8]) -> (r: Option<[u8; 32]>)
    ensures
        match r {
            Some(w) => abi_uint_word(data@) == Some(w@),
            None => abi_uint_word(data@) is None,
        },
{
    <Uint<256> as SolType>::abi_decode(data).ok().map(|v| v.to_be_bytes::<32>())
}

/// Builds the call data of `balanceOf(owner)`.
pub fn balance_of_calldata(owner: &[u8; 20]) -> (r: Vec<u8>)
    ensures
        r@ == balance_of_call(owner@),
{
    let mut r: Vec<u8> = vec![0x70u8, 0xa0u8, 0x82u8, 0x31u8];
    let mut i: usize = 0;
    while i < 12
        invariant
            i <= 12,
            r@ == balance_of_selector() + Seq::new(i as nat, |j: int| 0u8),
        decreases 12 - i,
    {
        r.push(0u8);
        i = i + 1;
        assert(r@ =~= balance_of_selector() + Seq::new(i as nat, |j: int| 0u8));
    }
    let mut k: usize = 0;
    while k < 20
        invariant
            k <= 20,
            r@ == balance_of_selector() + Seq::new(12, |j: int| 0u8) + owner@.subrange(0, k as int),
        decreases 20 - k,
    {
        r.push(owner[k]);
        k = k + 1;
        assert(r@ =~= balance_of_selector() + Seq::new(12, |j: int| 0u8) + owner@.subrange(0, k as int));
    }
    assert(owner@.subrange(0, 20) =~= owner@);
    r
}

/// Whether the big-endian balance `word` is at least `min_amount` (inclusive).
pub fn meets_threshold(word: &[u8; 32], min_amount: u64) -> (r: bool)
    ensures
        r == (be_value(word@) >= min_amount),
{
    let mut acc: u64 = 0;
    let mut over = false;
    let mut i: usize = 0;
    while i < 32
        invariant
            i <= 32,
            over ==> be_value(word@.subrange(0, i as int)) > u64::MAX,
            !over ==> acc == be_value(word@.subrange(0, i as int)),
        decreases 32 - i,
    {
        let ghost prev = be_value(word@.subrange(0, i as int));
        assert(word@.subrange(0, i as int + 1).drop_last() =~= word@.subrange(0, i as int));
        let b = word[i];
        assert(be_value(word@.subrange(0, i as int + 1)) == prev * 256 + b as nat);
        if !over {
            match acc.checked_mul(256) {
                Some(m) => match m.checked_add(b as u64) {
                    Some(v) => {
                        acc = v;
                    },
                    None => {
                        over = true;
                    },
                },
                None => {
                    over = true;
                    assert(prev * 256 + b as nat > u64::MAX) by (nonlinear_arith)
                        requires
                            prev * 256 > u64::MAX,
                    ;
                },
            }
        } else {
            assert(prev * 256 + b as nat > u64::MAX) by (nonlinear_arith)
                requires
                    prev > u64::MAX,
            ;
        }
        i = i + 1;
    }
    assert(word@.subrange(0, 32) =~= word@);
    over || acc >= min_amount
}

/// A transport failure of the contract call; both are worth a retry.
#[derive(Clone, Copy, Debug, PartialEq, Eq, Structural)]
pub enum OracleFailure {
    RpcUnavailable,
    Timeout,
}

/// What an answer of the oracle means for the decision.
#[derive(Clone, Copy, Debug, PartialEq, Eq, Structural)]
pub enum BalanceVerdict {
    /// The balance meets the threshold.
    Qualifies,
    /// The balance lies below the threshold.
    Insufficient,
    /// The oracle could not be reached in time; the visitor may retry.
    Unavailable,
    /// The answer is not one `uint256`: the contract or chain is misconfigured.
    Undecodable,
}

/// The verdict on an oracle answer, given the threshold.
pub open spec fn verdict_of(answer: Result<Seq<u8>, OracleFailure>, min_amount: u64) -> BalanceVerdict {
    match answer {
        Err(_) => BalanceVerdict::Unavailable,
        Ok(data) => match abi_uint_word(data) {
            None => BalanceVerdict::Undecodable,
            Some(w) => if be_value(w) >= min_amount {
                BalanceVerdict::Qualifies
            } else {
                BalanceVerdict::Insufficient
            },
        },
    }
}

pub open spec fn answer_view(answer: &Result<Vec<u8>, OracleFailure>) -> Result<Seq<u8>, OracleFailure> {
    match answer {
        Ok(d) => Ok(d@),
        Err(e) => Err(*e),
    }
}

/// Judges the answer of the `balanceOf` call against `min_amount`.
pub fn judge_balance(answer: &Result<Vec<u8>, OracleFailure>, min_amount: u64) -> (r: BalanceVerdict)
    ensures
        r == verdict_of(answer_view(answer), min_amount),
{
    match answer {
        Err(_) => BalanceVerdict::Unavailable,
        Ok(data) => match decode_uint_word(data.as_slice()) {
            None => BalanceVerdict::Undecodable,
            Some(w) => if meets_threshold(&w, min_amount) {
                BalanceVerdict::Qualifies
            } else {
                BalanceVerdict::Insufficient
            },
        },
    }
}

} // verus!

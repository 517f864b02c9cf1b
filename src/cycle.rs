//! One update cycle on a fetched batch: validation, then consensus.
use vstd::prelude::*;

use crate::consensus::{consensus_outcome, price_seq, valid_batch, ConsensusEngine};
use crate::models::{ConsensusResult, OracleError, PriceData};
use crate::stats::{MAX_PRICE, MAX_SAMPLES};
use crate::validator::{validate_fold, PriceValidator};

verus! {

/// The validator accepts no more quotes than it is given, and only prices in
/// `(0, MAX_PRICE]`.
pub proof fn lemma_validated_batch(hs: Map<Seq<char>, Seq<i64>>, qs: Seq<PriceData>, cap: int)
    ensures
        validate_fold(hs, qs, cap).1.len() <= qs.len(),
        forall|i: int|
            0 <= i < validate_fold(hs, qs, cap).1.len() ==> 0 < #[trigger] validate_fold(
                hs,
                qs,
                cap,
            ).1[i].price <= MAX_PRICE,
    decreases qs.len(),
{
    if qs.len() > 0 {
        lemma_validated_batch(hs, qs.drop_last(), cap);
    }
}

/// Runs one cycle on the quotes fetched for it, with the result stamped
/// `now`: fails when nothing was fetched, when the validator accepts
/// nothing, or when consensus fails; otherwise returns the consensus over
/// the accepted quotes. The validator's histories take in the accepted
/// prices whenever anything was fetched.
pub fn run_price_update(
    validator: &mut PriceValidator,
    engine: &ConsensusEngine,
    price_data: &[PriceData],
    now: i64,
) -> (r: Result<ConsensusResult, OracleError>)
    requires
        old(validator).wf(),
        price_data@.len() <= MAX_SAMPLES,
    ensures
        final(validator).wf(),
        final(validator).capacity() == old(validator).capacity(),
        ({
            let (hs, accepted) = validate_fold(
                old(validator).histories(),
                price_data@,
                old(validator).capacity() as int,
            );
            if price_data@.len() == 0 {
                &&& r == Err::<ConsensusResult, OracleError>(OracleError::NoPriceData)
                &&& final(validator).histories() == old(validator).histories()
            } else {
                &&& final(validator).histories() == hs
                &&& accepted.len() == 0 ==> r == Err::<ConsensusResult, OracleError>(
                    OracleError::NoValidPrices,
                )
                &&& accepted.len() > 0 ==> consensus_outcome(accepted, engine.spec_params(), r)
                &&& r matches Ok(res) ==> res.timestamp == now
            }
        }),
{
    if price_data.len() == 0 {
        return Err(OracleError::NoPriceData);
    }
    let ghost h0 = validator.histories();
    let ghost cap = validator.capacity() as int;
    let validated = validator.validate_prices(price_data);
    match validated {
        Err(e) => Err(e),
        Ok(batch) => {
            proof {
                lemma_validated_batch(h0, price_data@, cap);
                let q = batch@;
                assert forall|i: int| 0 <= i < price_seq(q).len() implies 0 < #[trigger] price_seq(
                    q,
                )[i] && price_seq(q)[i] <= MAX_PRICE by {
                    assert(price_seq(q)[i] == q[i].price);
                }
                assert(valid_batch(q));
            }
            engine.run_consensus_at(batch.as_slice(), now)
        },
    }
}

} // verus!

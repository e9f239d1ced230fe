//! The registry's laws, stated over the ghost model and proved once for all
//! states the operations can reach: every operation preserves
//! well-formedness, ids are issued monotonically, the aggregate counters
//! stay consistent with the records, and the Verify guards block a second
//! transition without side effects.

use vstd::prelude::*;

use crate::model::RegistryView;
use crate::model::count_verified;
use crate::model::lemma_count_verified_push;
use crate::model::lemma_count_verified_slack;
use crate::model::lemma_count_verified_update;
use crate::model::lemma_sum_asset_value_push;
use crate::model::lemma_sum_asset_value_update;
use crate::model::sum_asset_value;
use crate::records::TokenError;
use crate::records::TokenView;

verus! {

/// A successful Create preserves well-formedness. Together with
/// `lemma_verify_preserves_wf` and the well-formedness of the empty
/// registry, every state a sequence of operations can reach is well-formed.
pub proof fn lemma_create_preserves_wf(
    r: RegistryView,
    owner: Seq<char>,
    asset_type: Seq<char>,
    asset_value: u64,
    tokens_issued: u64,
    timestamp: u64,
)
    requires
        r.wf(),
        r.count < u64::MAX,
        r.stats.total_asset_value + asset_value <= u64::MAX,
    ensures
        r.create_trans(owner, asset_type, asset_value, tokens_issued, timestamp).wf(),
{
    let t = TokenView {
        token_id: (r.tokens.len() + 1) as u64,
        asset_type,
        asset_value,
        tokens_issued,
        owner,
        verified: false,
        timestamp,
    };
    lemma_count_verified_push(r.tokens, t);
    lemma_sum_asset_value_push(r.tokens, t);
}

/// A Verify call preserves well-formedness, whether it succeeds or fails.
pub proof fn lemma_verify_preserves_wf(r: RegistryView, id: u64)
    requires
        r.wf(),
    ensures
        r.verify_trans(id).wf(),
{
    if r.verify_result(id) == Ok::<(), TokenError>(()) {
        let i = id - 1;
        let updated = TokenView { verified: true, ..r.token_at(id) };
        lemma_count_verified_slack(r.tokens, i);
        lemma_count_verified_update(r.tokens, i, updated);
        lemma_sum_asset_value_update(r.tokens, i, updated);
    }
}

/// Monotonic ids: a successful Create in state `r` issues id `r.count + 1`,
/// and the resulting state carries ids exactly `1..=r.count + 1` in creation
/// order. Hence `n` successive successful Creates from the empty registry
/// return exactly `1, 2, ..., n` in call order.
pub proof fn lemma_monotonic_ids(
    r: RegistryView,
    owner: Seq<char>,
    asset_type: Seq<char>,
    asset_value: u64,
    tokens_issued: u64,
    timestamp: u64,
)
    requires
        r.wf(),
        r.count < u64::MAX,
        r.stats.total_asset_value + asset_value <= u64::MAX,
    ensures
        ({
            let r2 = r.create_trans(owner, asset_type, asset_value, tokens_issued, timestamp);
            &&& r2.wf()
            &&& r2.count == r.count + 1
            &&& r2.token_at((r.count + 1) as u64).token_id == r.count + 1
            &&& forall|i: int|
                0 <= i < r2.tokens.len() ==> #[trigger] r2.tokens[i].token_id == i + 1
        }),
{
    lemma_create_preserves_wf(r, owner, asset_type, asset_value, tokens_issued, timestamp);
}

/// Stats consistency: in every well-formed state the aggregate counters
/// equal the counts over the records themselves — `total_tokens` the number
/// of records, `verified_tokens` the number of set flags, and
/// `total_asset_value` the sum of the recorded asset values.
pub proof fn lemma_stats_consistent(r: RegistryView)
    requires
        r.wf(),
    ensures
        r.stats.total_tokens == r.tokens.len(),
        r.stats.verified_tokens == count_verified(r.tokens),
        r.stats.total_asset_value == sum_asset_value(r.tokens),
{
}

/// Verify-once guard: when a Verify call on `id` succeeds, a second Verify
/// call on the same id fails with `AlreadyVerified` and leaves the state —
/// its statistics included — unchanged.
pub proof fn lemma_verify_twice(r: RegistryView, id: u64)
    requires
        r.wf(),
        r.verify_result(id) == Ok::<(), TokenError>(()),
    ensures
        ({
            let r1 = r.verify_trans(id);
            &&& r1.verify_result(id) == Err::<(), TokenError>(TokenError::AlreadyVerified)
            &&& r1.verify_trans(id) == r1
        }),
{
}

/// Not-found guard: a Verify call on an id that no record carries fails with
/// `NotFound` and leaves the state unchanged.
pub proof fn lemma_verify_not_found(r: RegistryView, id: u64)
    requires
        r.wf(),
        forall|i: int| 0 <= i < r.tokens.len() ==> #[trigger] r.tokens[i].token_id != id,
    ensures
        r.verify_result(id) == Err::<(), TokenError>(TokenError::NotFound),
        r.verify_trans(id) == r,
{
    if r.has_token(id) {
        assert(r.tokens[id - 1].token_id == id);
    }
}

} // verus!

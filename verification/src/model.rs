//! The mathematical model of the registry: its durable state as a ghost
//! value, well-formedness, and the state transitions of the Create and
//! Verify operations, together with the counting lemmas the proofs need.

use vstd::prelude::*;

use crate::records::AssetToken;
use crate::records::PlatformStats;
use crate::records::TokenError;
use crate::records::TokenView;

verus! {

/// The ghost images of a sequence of stored records.
pub open spec fn views_of(s: Seq<AssetToken>) -> Seq<TokenView> {
    s.map_values(|t: AssetToken| t@)
}

/// Count of records in `s` whose `verified` flag is set.
pub open spec fn count_verified(s: Seq<TokenView>) -> int
    decreases s.len(),
{
    if s.len() == 0 {
        0
    } else {
        count_verified(s.drop_last()) + if s.last().verified {
            1int
        } else {
            0int
        }
    }
}

/// Sum of `asset_value` over the records in `s`.
pub open spec fn sum_asset_value(s: Seq<TokenView>) -> int
    decreases s.len(),
{
    if s.len() == 0 {
        0
    } else {
        sum_asset_value(s.drop_last()) + s.last().asset_value
    }
}

/// The registry's durable state: the id counter, the token store in id order
/// (the record with id `i + 1` at position `i`), and the aggregate counters.
#[verifier::ext_equal]
pub ghost struct RegistryView {
    pub count: u64,
    pub tokens: Seq<TokenView>,
    pub stats: PlatformStats,
}

impl RegistryView {
    /// Well-formedness: the counter equals the number of records, the ids on
    /// record are exactly `1..=count` in creation order, and every aggregate
    /// counter agrees with the records it summarises.
    pub open spec fn wf(self) -> bool {
        &&& self.count == self.tokens.len()
        &&& self.stats.total_tokens == self.count
        &&& self.stats.verified_tokens == count_verified(self.tokens)
        &&& self.stats.total_asset_value == sum_asset_value(self.tokens)
        &&& forall|i: int|
            0 <= i < self.tokens.len() ==> #[trigger] self.tokens[i].token_id == i + 1
    }

    /// The state before any token was created: no records, zeroed counters.
    pub open spec fn empty() -> RegistryView {
        RegistryView {
            count: 0,
            tokens: Seq::empty(),
            stats: (PlatformStats { total_tokens: 0, verified_tokens: 0, total_asset_value: 0 }),
        }
    }

    /// The candidate state assembled from stored parts: a store of records
    /// in position order and the stored aggregate counters, with the counter
    /// taken from the number of records.
    pub open spec fn assembled(tokens: Seq<TokenView>, stats: PlatformStats) -> RegistryView {
        RegistryView { count: tokens.len() as u64, tokens, stats }
    }

    /// Whether a record with id `id` exists.
    pub open spec fn has_token(self, id: u64) -> bool {
        1 <= id <= self.tokens.len()
    }

    /// The record with id `id`; meaningful when `has_token(id)`.
    pub open spec fn token_at(self, id: u64) -> TokenView {
        self.tokens[id - 1]
    }

    /// The state after a successful Create call: the counter steps, an
    /// unverified record with the next id is appended, and the aggregates
    /// take the new record into account.
    pub open spec fn create_trans(
        self,
        owner: Seq<char>,
        asset_type: Seq<char>,
        asset_value: u64,
        tokens_issued: u64,
        timestamp: u64,
    ) -> RegistryView {
        RegistryView {
            count: (self.count + 1) as u64,
            tokens: self.tokens.push(
                TokenView {
                    token_id: (self.tokens.len() + 1) as u64,
                    asset_type,
                    asset_value,
                    tokens_issued,
                    owner,
                    verified: false,
                    timestamp,
                },
            ),
            stats: PlatformStats {
                total_tokens: (self.stats.total_tokens + 1) as u64,
                verified_tokens: self.stats.verified_tokens,
                total_asset_value: (self.stats.total_asset_value + asset_value) as u64,
            },
        }
    }

    /// The outcome of a Verify call on `id`: `NotFound` when the id was never
    /// created, `AlreadyVerified` when the record's flag is already set, and
    /// success otherwise.
    pub open spec fn verify_result(self, id: u64) -> Result<(), TokenError> {
        if !self.has_token(id) {
            Err(TokenError::NotFound)
        } else if self.token_at(id).verified {
            Err(TokenError::AlreadyVerified)
        } else {
            Ok(())
        }
    }

    /// The state after a Verify call: on success the record's flag is set and
    /// the verified counter steps; a failed call changes nothing.
    pub open spec fn verify_trans(self, id: u64) -> RegistryView {
        if self.verify_result(id) == Ok::<(), TokenError>(()) {
            RegistryView {
                count: self.count,
                tokens: self.tokens.update(
                    id - 1,
                    TokenView { verified: true, ..self.token_at(id) },
                ),
                stats: PlatformStats {
                    total_tokens: self.stats.total_tokens,
                    verified_tokens: (self.stats.verified_tokens + 1) as u64,
                    total_asset_value: self.stats.total_asset_value,
                },
            }
        } else {
            self
        }
    }
}

/// Appending a record adds its flag to the verified count.
pub proof fn lemma_count_verified_push(s: Seq<TokenView>, t: TokenView)
    ensures
        count_verified(s.push(t)) == count_verified(s) + if t.verified {
            1int
        } else {
            0int
        },
{
    assert(s.push(t).drop_last() =~= s);
}

/// Appending a record adds its value to the asset-value sum.
pub proof fn lemma_sum_asset_value_push(s: Seq<TokenView>, t: TokenView)
    ensures
        sum_asset_value(s.push(t)) == sum_asset_value(s) + t.asset_value,
{
    assert(s.push(t).drop_last() =~= s);
}

/// Replacing one record shifts the verified count by the flags' difference.
pub proof fn lemma_count_verified_update(s: Seq<TokenView>, i: int, t: TokenView)
    requires
        0 <= i < s.len(),
    ensures
        count_verified(s.update(i, t)) == count_verified(s) - (if s[i].verified {
            1int
        } else {
            0int
        }) + (if t.verified {
            1int
        } else {
            0int
        }),
    decreases s.len(),
{
    let su = s.update(i, t);
    if i == s.len() - 1 {
        assert(su.drop_last() =~= s.drop_last());
        assert(su.last() == t);
    } else {
        assert(su.drop_last() =~= s.drop_last().update(i, t));
        assert(su.last() == s.last());
        lemma_count_verified_update(s.drop_last(), i, t);
        assert(s.drop_last()[i] == s[i]);
    }
}

/// Replacing one record shifts the asset-value sum by the values' difference.
pub proof fn lemma_sum_asset_value_update(s: Seq<TokenView>, i: int, t: TokenView)
    requires
        0 <= i < s.len(),
    ensures
        sum_asset_value(s.update(i, t)) == sum_asset_value(s) - s[i].asset_value
            + t.asset_value,
    decreases s.len(),
{
    let su = s.update(i, t);
    if i == s.len() - 1 {
        assert(su.drop_last() =~= s.drop_last());
        assert(su.last() == t);
    } else {
        assert(su.drop_last() =~= s.drop_last().update(i, t));
        assert(su.last() == s.last());
        lemma_sum_asset_value_update(s.drop_last(), i, t);
        assert(s.drop_last()[i] == s[i]);
    }
}

/// The asset-value sum over a prefix never exceeds the sum over the whole.
pub proof fn lemma_sum_asset_value_take_le(s: Seq<TokenView>, k: int)
    requires
        0 <= k <= s.len(),
    ensures
        sum_asset_value(s.take(k)) <= sum_asset_value(s),
    decreases s.len() - k,
{
    if k == s.len() {
        assert(s.take(k) =~= s);
    } else {
        assert(s.take(k + 1).drop_last() =~= s.take(k));
        assert(s.take(k + 1).last() == s[k]);
        lemma_sum_asset_value_take_le(s, k + 1);
    }
}

/// The verified count never exceeds the number of records.
pub proof fn lemma_count_verified_bounds(s: Seq<TokenView>)
    ensures
        0 <= count_verified(s) <= s.len(),
    decreases s.len(),
{
    if s.len() > 0 {
        lemma_count_verified_bounds(s.drop_last());
    }
}

/// An unverified record keeps the verified count strictly below the length.
pub proof fn lemma_count_verified_slack(s: Seq<TokenView>, i: int)
    requires
        0 <= i < s.len(),
        !s[i].verified,
    ensures
        count_verified(s) < s.len(),
    decreases s.len(),
{
    lemma_count_verified_bounds(s.drop_last());
    if i < s.len() - 1 {
        assert(s.drop_last()[i] == s[i]);
        lemma_count_verified_slack(s.drop_last(), i);
    }
}

} // verus!

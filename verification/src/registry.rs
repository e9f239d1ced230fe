//! The registry and its four operations: Create, Verify, View and Stats.
//!
//! The registry owns the three pieces of durable state (token store, id
//! counter, aggregate statistics). A host adapter persists this state and
//! performs caller authentication and clock reads; the operations here take
//! those as plain values and are the whole of the state-transition logic.

use vstd::prelude::*;

use crate::model::RegistryView;
use crate::model::count_verified;
use crate::model::lemma_count_verified_bounds;
use crate::model::lemma_count_verified_push;
use crate::model::lemma_count_verified_slack;
use crate::model::lemma_count_verified_update;
use crate::model::lemma_sum_asset_value_push;
use crate::model::lemma_sum_asset_value_take_le;
use crate::model::lemma_sum_asset_value_update;
use crate::model::sum_asset_value;
use crate::model::views_of;
use crate::records::AssetToken;
use crate::records::PlatformStats;
use crate::records::TokenBook;
use crate::records::TokenError;
use crate::records::TokenView;

verus! {

/// The asset-backed token registry.
pub struct AssetBackedTokenContract {
    /// Count of tokens ever created; the most recently issued id.
    count: u64,
    /// The token store: the record with id `i + 1` at position `i`.
    tokens: Vec<AssetToken>,
    /// Aggregate platform counters.
    stats: PlatformStats,
}

impl View for AssetBackedTokenContract {
    type V = RegistryView;

    closed spec fn view(&self) -> RegistryView {
        RegistryView { count: self.count, tokens: views_of(self.tokens@), stats: self.stats }
    }
}

impl AssetBackedTokenContract {
    /// A fresh registry: no records, zeroed counters.
    pub fn new() -> (r: AssetBackedTokenContract)
        ensures
            r@ == RegistryView::empty(),
            r@.wf(),
    {
        let r = AssetBackedTokenContract {
            count: 0,
            tokens: Vec::new(),
            stats: PlatformStats { total_tokens: 0, verified_tokens: 0, total_asset_value: 0 },
        };
        proof {
            assert(r@.tokens =~= Seq::<TokenView>::empty());
            assert(r@ =~= RegistryView::empty());
        }
        r
    }

    /// Rebuild a registry from parts read back from durable storage: the
    /// records in id order and the stored aggregate counters. Returns the
    /// registry exactly when the parts assemble to a well-formed state —
    /// ids are `1, 2, ...` in position order and every counter agrees with
    /// the records — and `None` on any corrupt or inconsistent store.
    pub fn from_parts(tokens: Vec<AssetToken>, stats: PlatformStats) -> (r: Option<
        AssetBackedTokenContract,
    >)
        ensures
            (match r {
                Some(reg) => {
                    &&& reg@ == RegistryView::assembled(views_of(tokens@), stats)
                    &&& reg@.wf()
                },
                None => !RegistryView::assembled(views_of(tokens@), stats).wf(),
            }),
    {
        let ghost candidate = RegistryView::assembled(views_of(tokens@), stats);
        let n = tokens.len();
        if stats.total_tokens != n as u64 {
            return None;
        }
        let mut i: usize = 0;
        let mut verified_count: u64 = 0;
        let mut asset_sum: u64 = 0;
        while i < n
            invariant
                0 <= i <= n,
                n == tokens@.len(),
                candidate == RegistryView::assembled(views_of(tokens@), stats),
                verified_count == count_verified(views_of(tokens@).take(i as int)),
                asset_sum == sum_asset_value(views_of(tokens@).take(i as int)),
                forall|j: int|
                    0 <= j < i ==> #[trigger] views_of(tokens@)[j].token_id == j + 1,
            decreases n - i,
        {
            let ghost s = views_of(tokens@);
            let t = &tokens[i];
            if t.token_id != i as u64 + 1 {
                proof {
                    assert(candidate.tokens[i as int].token_id != i + 1);
                }
                return None;
            }
            if asset_sum > u64::MAX - t.asset_value {
                proof {
                    assert(s.take(i + 1).drop_last() =~= s.take(i as int));
                    assert(s.take(i + 1).last() == s[i as int]);
                    lemma_sum_asset_value_take_le(s, i + 1);
                }
                return None;
            }
            proof {
                lemma_count_verified_bounds(s.take(i as int));
                assert(s.take(i + 1).drop_last() =~= s.take(i as int));
                assert(s.take(i + 1).last() == s[i as int]);
            }
            if t.verified {
                verified_count = verified_count + 1;
            }
            asset_sum = asset_sum + t.asset_value;
            i = i + 1;
        }
        proof {
            assert(views_of(tokens@).take(n as int) =~= views_of(tokens@));
        }
        if verified_count != stats.verified_tokens {
            return None;
        }
        if asset_sum != stats.total_asset_value {
            return None;
        }
        Some(AssetBackedTokenContract { count: n as u64, tokens, stats })
    }

    /// Create: assign the next id, append the record with `verified` unset,
    /// and step the aggregate counters. Returns the new id, one past the
    /// previous counter value; the first id ever returned is `1`.
    ///
    /// The caller must already be authenticated as `owner`, and `timestamp`
    /// is the ledger clock at the enclosing transaction; both come from the
    /// host. The counter and value increments are assumed not to overflow.
    pub fn create_token(
        &mut self,
        owner: String,
        asset_type: String,
        asset_value: u64,
        tokens_issued: u64,
        timestamp: u64,
    ) -> (new_id: u64)
        requires
            old(self)@.wf(),
            old(self)@.count < u64::MAX,
            old(self)@.stats.total_asset_value + asset_value <= u64::MAX,
        ensures
            final(self)@ == old(self)@.create_trans(
                owner@,
                asset_type@,
                asset_value,
                tokens_issued,
                timestamp,
            ),
            final(self)@.wf(),
            new_id == old(self)@.count + 1,
            final(self)@.has_token(new_id),
            final(self)@.token_at(new_id) == (TokenView {
                token_id: new_id,
                asset_type: asset_type@,
                asset_value,
                tokens_issued,
                owner: owner@,
                verified: false,
                timestamp,
            }),
    {
        let new_id = self.count + 1;
        let record = AssetToken {
            token_id: new_id,
            asset_type,
            asset_value,
            tokens_issued,
            owner,
            verified: false,
            timestamp,
        };
        self.tokens.push(record);
        self.count = new_id;
        self.stats.total_tokens = self.stats.total_tokens + 1;
        self.stats.total_asset_value = self.stats.total_asset_value + asset_value;
        proof {
            let prev = old(self)@;
            lemma_count_verified_push(prev.tokens, record@);
            lemma_sum_asset_value_push(prev.tokens, record@);
            assert(self@.tokens =~= prev.tokens.push(record@));
            assert(self@ =~= prev.create_trans(
                record.owner@,
                record.asset_type@,
                asset_value,
                tokens_issued,
                timestamp,
            ));
        }
        new_id
    }

    /// Verify: set the record's flag, exactly once per record, and step the
    /// verified counter. Fails with `NotFound` when the id was never created
    /// and with `AlreadyVerified` when the flag is already set; a failed call
    /// changes nothing.
    ///
    /// The admin caller must already be authenticated by the host.
    pub fn verify_token(&mut self, token_id: u64) -> (r: Result<(), TokenError>)
        requires
            old(self)@.wf(),
        ensures
            r == old(self)@.verify_result(token_id),
            final(self)@ == old(self)@.verify_trans(token_id),
            final(self)@.wf(),
    {
        if token_id < 1 || token_id > self.tokens.len() as u64 {
            return Err(TokenError::NotFound);
        }
        let idx = (token_id - 1) as usize;
        if self.tokens[idx].verified {
            return Err(TokenError::AlreadyVerified);
        }
        proof {
            lemma_count_verified_slack(self@.tokens, idx as int);
        }
        self.tokens[idx].verified = true;
        self.stats.verified_tokens = self.stats.verified_tokens + 1;
        proof {
            let prev = old(self)@;
            let updated = TokenView { verified: true, ..prev.token_at(token_id) };
            lemma_count_verified_update(prev.tokens, idx as int, updated);
            lemma_sum_asset_value_update(prev.tokens, idx as int, updated);
            assert(self@.tokens =~= prev.tokens.update(idx as int, updated));
            assert(self@ =~= prev.verify_trans(token_id));
        }
        Ok(())
    }

    /// Look a record up by its storage key: `Some` exactly when a record with
    /// the addressed id exists.
    fn lookup(&self, key: &TokenBook) -> (r: Option<&AssetToken>)
        requires
            self@.wf(),
        ensures
            (match r {
                Some(t) => self@.has_token(key.id()) && t@ == self@.token_at(key.id()),
                None => !self@.has_token(key.id()),
            }),
    {
        let id = match *key {
            TokenBook::Token(i) => i,
        };
        if 1 <= id && id <= self.tokens.len() as u64 {
            let idx = (id - 1) as usize;
            Some(&self.tokens[idx])
        } else {
            None
        }
    }

    /// View: the record stored for `token_id`, or the sentinel record when
    /// the id was never created. Pure read, no authentication.
    pub fn view_token(&self, token_id: u64) -> (r: AssetToken)
        requires
            self@.wf(),
        ensures
            self@.has_token(token_id) ==> r@ == self@.token_at(token_id),
            !self@.has_token(token_id) ==> r@ == TokenView::sentinel(),
    {
        let key = TokenBook::Token(token_id);
        match self.lookup(&key) {
            Some(t) => t.clone(),
            None => AssetToken::sentinel(),
        }
    }

    /// Stats: the aggregate counters; all zero until the first token is
    /// created. Pure read, no authentication.
    pub fn get_platform_stats(&self) -> (r: PlatformStats)
        ensures
            r == self@.stats,
    {
        self.stats
    }
}

} // verus!

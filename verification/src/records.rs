//! The data model: token records, the sentinel for absent ids, aggregate
//! statistics, the storage key scheme, and the registry's error taxonomy.

use vstd::prelude::*;

verus! {

/// One asset-backed token record. Every field but `verified` is fixed at
/// creation; `verified` moves from `false` to `true` at most once.
pub struct AssetToken {
    /// Positive id assigned by the registry; `0` only in the sentinel.
    pub token_id: u64,
    /// Caller-supplied label for the backing asset, e.g. "Gold".
    pub asset_type: String,
    /// Caller-supplied value of the backing asset, in asset base units.
    pub asset_value: u64,
    /// Caller-supplied count of fungible units issued against the asset.
    pub tokens_issued: u64,
    /// Identity of the creating party.
    pub owner: String,
    /// Whether an administrator has verified the record.
    pub verified: bool,
    /// Ledger timestamp captured when the record was created.
    pub timestamp: u64,
}

/// The ghost image of a token record: strings as character sequences.
#[verifier::ext_equal]
pub ghost struct TokenView {
    pub token_id: u64,
    pub asset_type: Seq<char>,
    pub asset_value: u64,
    pub tokens_issued: u64,
    pub owner: Seq<char>,
    pub verified: bool,
    pub timestamp: u64,
}

impl View for AssetToken {
    type V = TokenView;

    open spec fn view(&self) -> TokenView {
        TokenView {
            token_id: self.token_id,
            asset_type: self.asset_type@,
            asset_value: self.asset_value,
            tokens_issued: self.tokens_issued,
            owner: self.owner@,
            verified: self.verified,
            timestamp: self.timestamp,
        }
    }
}

impl Clone for AssetToken {
    fn clone(&self) -> (res: Self)
        ensures
            res == *self,
    {
        AssetToken {
            token_id: self.token_id,
            asset_type: self.asset_type.clone(),
            asset_value: self.asset_value,
            tokens_issued: self.tokens_issued,
            owner: self.owner.clone(),
            verified: self.verified,
            timestamp: self.timestamp,
        }
    }
}

impl TokenView {
    /// The record that stands for an absent id: `token_id == 0`, a fixed
    /// "Not_Found" label, an invalid owner placeholder, and zeroes elsewhere.
    pub open spec fn sentinel() -> TokenView {
        TokenView {
            token_id: 0,
            asset_type: "Not_Found"@,
            asset_value: 0,
            tokens_issued: 0,
            owner: "GAAAAAAAAAAAAAAAAAAAAAAAAAAAAAAAAAAAAAAAAAAAAAAAAAAAAWHF"@,
            verified: false,
            timestamp: 0,
        }
    }
}

impl AssetToken {
    /// Build the sentinel record returned for an id that was never created.
    pub fn sentinel() -> (r: AssetToken)
        ensures
            r@ == TokenView::sentinel(),
    {
        AssetToken {
            token_id: 0,
            asset_type: "Not_Found".to_owned(),
            asset_value: 0,
            tokens_issued: 0,
            owner: "GAAAAAAAAAAAAAAAAAAAAAAAAAAAAAAAAAAAAAAAAAAAAAAAAAAAAWHF".to_owned(),
            verified: false,
            timestamp: 0,
        }
    }
}

/// Aggregate platform counters, kept in lockstep with the token records.
#[derive(Clone, Copy, Debug, PartialEq, Eq, Structural)]
pub struct PlatformStats {
    /// Count of records ever created; equals the id counter.
    pub total_tokens: u64,
    /// Count of records whose `verified` flag is set.
    pub verified_tokens: u64,
    /// Sum of `asset_value` over all records.
    pub total_asset_value: u64,
}

/// The storage key scheme: each token record is addressed by `Token(id)`.
/// A host adapter persists record `id` under this key.
#[derive(Clone, Copy, Debug, PartialEq, Eq, Structural)]
pub enum TokenBook {
    Token(u64),
}

impl TokenBook {
    /// The id this key addresses.
    pub open spec fn id(self) -> u64 {
        match self {
            TokenBook::Token(i) => i,
        }
    }
}

/// The failures the Verify operation surfaces. Authentication failures are
/// raised by the host before an operation is reached and have no variant here.
#[derive(Clone, Copy, Debug, PartialEq, Eq, Structural)]
pub enum TokenError {
    /// The targeted id was never created.
    NotFound,
    /// The targeted record is already verified; the flag never reverts.
    AlreadyVerified,
}

} // verus!

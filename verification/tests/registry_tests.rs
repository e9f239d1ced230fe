use asset_registry::AssetBackedTokenContract;
use asset_registry::PlatformStats;
use asset_registry::TokenError;

const OWNER_A: &str = "GA7QYNF7SOWQ3GLR2BGMZEHXAVIRZA4KVWLTJJFC7MGXUA74P7UJVSGZ";
const OWNER_B: &str = "GDQERENWDDSQZS7R7WKHZI3BSOYMV3FSWR7TFUYFTKQ447PIX6NREOJM";
const SENTINEL_OWNER: &str = "GAAAAAAAAAAAAAAAAAAAAAAAAAAAAAAAAAAAAAAAAAAAAAAAAAAAAWHF";

#[test]
fn fresh_registry_has_zero_stats() {
    let reg = AssetBackedTokenContract::new();
    let stats = reg.get_platform_stats();
    assert_eq!(
        stats,
        PlatformStats { total_tokens: 0, verified_tokens: 0, total_asset_value: 0 }
    );
}

#[test]
fn view_on_fresh_registry_returns_sentinel() {
    let reg = AssetBackedTokenContract::new();
    let t = reg.view_token(1);
    assert_eq!(t.token_id, 0);
    assert_eq!(t.asset_type, "Not_Found");
    assert_eq!(t.asset_value, 0);
    assert_eq!(t.tokens_issued, 0);
    assert_eq!(t.owner, SENTINEL_OWNER);
    assert!(!t.verified);
    assert_eq!(t.timestamp, 0);
}

#[test]
fn create_returns_sequential_ids() {
    let mut reg = AssetBackedTokenContract::new();
    let id1 = reg.create_token(OWNER_A.to_owned(), "Gold".to_owned(), 100, 10, 1);
    let id2 = reg.create_token(OWNER_B.to_owned(), "Real Estate".to_owned(), 500, 50, 2);
    let id3 = reg.create_token(OWNER_A.to_owned(), "Commodity".to_owned(), 7, 3, 3);
    assert_eq!(id1, 1);
    assert_eq!(id2, 2);
    assert_eq!(id3, 3);
}

#[test]
fn view_returns_record_as_created() {
    let mut reg = AssetBackedTokenContract::new();
    reg.create_token(OWNER_A.to_owned(), "Gold".to_owned(), 100, 10, 42);
    let t = reg.view_token(1);
    assert_eq!(t.token_id, 1);
    assert_eq!(t.asset_type, "Gold");
    assert_eq!(t.asset_value, 100);
    assert_eq!(t.tokens_issued, 10);
    assert_eq!(t.owner, OWNER_A);
    assert!(!t.verified);
    assert_eq!(t.timestamp, 42);
}

#[test]
fn stats_track_creations_and_verifications() {
    let mut reg = AssetBackedTokenContract::new();
    reg.create_token(OWNER_A.to_owned(), "Gold".to_owned(), 100, 10, 1);
    reg.create_token(OWNER_B.to_owned(), "Silver".to_owned(), 40, 4, 2);
    reg.create_token(OWNER_B.to_owned(), "Copper".to_owned(), 0, 0, 3);
    assert_eq!(
        reg.get_platform_stats(),
        PlatformStats { total_tokens: 3, verified_tokens: 0, total_asset_value: 140 }
    );
    assert_eq!(reg.verify_token(2), Ok(()));
    assert_eq!(
        reg.get_platform_stats(),
        PlatformStats { total_tokens: 3, verified_tokens: 1, total_asset_value: 140 }
    );
    assert_eq!(reg.verify_token(1), Ok(()));
    assert_eq!(
        reg.get_platform_stats(),
        PlatformStats { total_tokens: 3, verified_tokens: 2, total_asset_value: 140 }
    );
}

#[test]
fn verify_sets_flag_exactly_once() {
    let mut reg = AssetBackedTokenContract::new();
    reg.create_token(OWNER_A.to_owned(), "Gold".to_owned(), 100, 10, 1);
    assert!(!reg.view_token(1).verified);
    assert_eq!(reg.verify_token(1), Ok(()));
    assert!(reg.view_token(1).verified);
    let stats_before = reg.get_platform_stats();
    assert_eq!(reg.verify_token(1), Err(TokenError::AlreadyVerified));
    assert!(reg.view_token(1).verified);
    assert_eq!(reg.get_platform_stats(), stats_before);
}

#[test]
fn verify_unknown_id_is_not_found() {
    let mut reg = AssetBackedTokenContract::new();
    assert_eq!(reg.verify_token(999), Err(TokenError::NotFound));
    assert_eq!(
        reg.get_platform_stats(),
        PlatformStats { total_tokens: 0, verified_tokens: 0, total_asset_value: 0 }
    );
    reg.create_token(OWNER_A.to_owned(), "Gold".to_owned(), 100, 10, 1);
    assert_eq!(reg.verify_token(0), Err(TokenError::NotFound));
    assert_eq!(reg.verify_token(2), Err(TokenError::NotFound));
    assert_eq!(
        reg.get_platform_stats(),
        PlatformStats { total_tokens: 1, verified_tokens: 0, total_asset_value: 100 }
    );
}

#[test]
fn view_unknown_id_after_creations_is_sentinel() {
    let mut reg = AssetBackedTokenContract::new();
    reg.create_token(OWNER_A.to_owned(), "Gold".to_owned(), 100, 10, 1);
    let t = reg.view_token(2);
    assert_eq!(t.token_id, 0);
    assert_eq!(t.asset_type, "Not_Found");
    assert_eq!(t.owner, SENTINEL_OWNER);
}

#[test]
fn zero_values_are_accepted() {
    let mut reg = AssetBackedTokenContract::new();
    let id = reg.create_token(OWNER_A.to_owned(), "".to_owned(), 0, 0, 0);
    assert_eq!(id, 1);
    let t = reg.view_token(1);
    assert_eq!(t.asset_type, "");
    assert_eq!(t.asset_value, 0);
    assert_eq!(t.tokens_issued, 0);
    assert_eq!(t.timestamp, 0);
    assert_eq!(
        reg.get_platform_stats(),
        PlatformStats { total_tokens: 1, verified_tokens: 0, total_asset_value: 0 }
    );
}

#[test]
fn largest_asset_value_is_accepted() {
    let mut reg = AssetBackedTokenContract::new();
    let id = reg.create_token(OWNER_A.to_owned(), "Gold".to_owned(), u64::MAX, 1, 1);
    assert_eq!(id, 1);
    assert_eq!(reg.get_platform_stats().total_asset_value, u64::MAX);
}

fn sample_record(token_id: u64, asset_value: u64, verified: bool) -> asset_registry::AssetToken {
    asset_registry::AssetToken {
        token_id,
        asset_type: "Gold".to_owned(),
        asset_value,
        tokens_issued: 1,
        owner: OWNER_A.to_owned(),
        verified,
        timestamp: 9,
    }
}

#[test]
fn from_parts_accepts_consistent_state() {
    let records = vec![sample_record(1, 100, true), sample_record(2, 40, false)];
    let stats = PlatformStats { total_tokens: 2, verified_tokens: 1, total_asset_value: 140 };
    let mut reg = AssetBackedTokenContract::from_parts(records, stats)
        .expect("consistent parts must be accepted");
    assert_eq!(reg.get_platform_stats(), stats);
    assert!(reg.view_token(1).verified);
    assert_eq!(reg.verify_token(1), Err(TokenError::AlreadyVerified));
    assert_eq!(reg.verify_token(2), Ok(()));
    let id = reg.create_token(OWNER_B.to_owned(), "Silver".to_owned(), 10, 1, 12);
    assert_eq!(id, 3);
    assert_eq!(
        reg.get_platform_stats(),
        PlatformStats { total_tokens: 3, verified_tokens: 2, total_asset_value: 150 }
    );
}

#[test]
fn from_parts_accepts_empty_state() {
    let stats = PlatformStats { total_tokens: 0, verified_tokens: 0, total_asset_value: 0 };
    let reg = AssetBackedTokenContract::from_parts(Vec::new(), stats);
    assert!(reg.is_some());
}

#[test]
fn from_parts_rejects_wrong_total_tokens() {
    let records = vec![sample_record(1, 100, false)];
    let stats = PlatformStats { total_tokens: 2, verified_tokens: 0, total_asset_value: 100 };
    assert!(AssetBackedTokenContract::from_parts(records, stats).is_none());
}

#[test]
fn from_parts_rejects_wrong_verified_count() {
    let records = vec![sample_record(1, 100, true)];
    let stats = PlatformStats { total_tokens: 1, verified_tokens: 0, total_asset_value: 100 };
    assert!(AssetBackedTokenContract::from_parts(records, stats).is_none());
}

#[test]
fn from_parts_rejects_wrong_asset_value_sum() {
    let records = vec![sample_record(1, 100, false)];
    let stats = PlatformStats { total_tokens: 1, verified_tokens: 0, total_asset_value: 99 };
    assert!(AssetBackedTokenContract::from_parts(records, stats).is_none());
}

#[test]
fn from_parts_rejects_out_of_order_ids() {
    let records = vec![sample_record(1, 50, false), sample_record(3, 50, false)];
    let stats = PlatformStats { total_tokens: 2, verified_tokens: 0, total_asset_value: 100 };
    assert!(AssetBackedTokenContract::from_parts(records, stats).is_none());
}

#[test]
fn from_parts_rejects_value_sum_overflow() {
    let records = vec![sample_record(1, u64::MAX, false), sample_record(2, 1, false)];
    let stats = PlatformStats { total_tokens: 2, verified_tokens: 0, total_asset_value: u64::MAX };
    assert!(AssetBackedTokenContract::from_parts(records, stats).is_none());
}

#[test]
fn full_scenario() {
    let mut reg = AssetBackedTokenContract::new();
    let id = reg.create_token(OWNER_A.to_owned(), "Gold".to_owned(), 100, 10, 7);
    assert_eq!(id, 1);
    let t = reg.view_token(1);
    assert_eq!(t.token_id, 1);
    assert_eq!(t.asset_type, "Gold");
    assert_eq!(t.asset_value, 100);
    assert!(!t.verified);
    assert_eq!(
        reg.get_platform_stats(),
        PlatformStats { total_tokens: 1, verified_tokens: 0, total_asset_value: 100 }
    );
    assert_eq!(reg.verify_token(1), Ok(()));
    assert!(reg.view_token(1).verified);
    assert_eq!(
        reg.get_platform_stats(),
        PlatformStats { total_tokens: 1, verified_tokens: 1, total_asset_value: 100 }
    );
    assert_eq!(reg.verify_token(1), Err(TokenError::AlreadyVerified));
    assert_eq!(
        reg.get_platform_stats(),
        PlatformStats { total_tokens: 1, verified_tokens: 1, total_asset_value: 100 }
    );
}

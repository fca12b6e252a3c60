use std::collections::HashMap;

use nft_ledger::auth::require_caller;
use nft_ledger::bps::split;
use nft_ledger::collection::NftCollection;
use nft_ledger::explorer::NamadaExplorer;
use nft_ledger::royalty::{distribute, validate_royalty_config};
use nft_ledger::types::{
    Address, Amount, NftError, NftMetadata, PrivacyConfig, RoyaltyConfig, TokenId, TxContext,
    VisibilityLevel,
};

fn plain_metadata(creator: &Address, transferable: bool) -> NftMetadata {
    NftMetadata {
        token_id: TokenId::placeholder(),
        name: "Test NFT".to_string(),
        description: None,
        uri: Some("ipfs://example-cid".to_string()),
        creator: creator.clone(),
        attributes: HashMap::new(),
        transferable,
        privacy_config: None,
    }
}

fn royalty(creator: &Address, pct: u16, secondary: Vec<(Address, u16)>) -> RoyaltyConfig {
    RoyaltyConfig {
        creator: creator.clone(),
        royalty_percentage: pct,
        secondary_recipients: secondary,
        royalty_token: None,
    }
}

#[test]
fn test_nft_lifecycle() {
    let creator = Address::new("namada1creator");
    let recipient = Address::new("namada1recipient");
    let fee_collector = Address::new("namada1feecollector");

    let mut collection =
        NftCollection::new("Test Collection".to_string(), fee_collector.clone(), 10).unwrap();

    let metadata = NftMetadata {
        token_id: TokenId::placeholder(),
        name: "Test NFT".to_string(),
        description: Some("A comprehensive test NFT".to_string()),
        uri: Some("ipfs://example-cid".to_string()),
        creator: creator.clone(),
        attributes: HashMap::from([("rarity".to_string(), "rare".to_string())]),
        transferable: true,
        privacy_config: Some(PrivacyConfig {
            encrypted: false,
            encryption_key: None,
            visibility: VisibilityLevel::Public,
        }),
    };

    let royalty_config = RoyaltyConfig {
        creator: creator.clone(),
        royalty_percentage: 500,
        secondary_recipients: vec![(creator.clone(), 250)],
        royalty_token: None,
    };

    let token_id = collection
        .mint(&mut TxContext::new(creator.clone()), metadata, Some(royalty_config))
        .expect("Minting should succeed");

    let outcome = collection
        .transfer(
            &mut TxContext::new(creator.clone()),
            token_id,
            &creator,
            &recipient,
            Some(Amount::from(1_000_000u64)),
        )
        .expect("Transfer should succeed");

    assert!(outcome.royalties.is_some());
    assert!(outcome.program_fee.is_some());

    let new_owner = collection.owner_of(token_id).unwrap();
    assert_eq!(new_owner, recipient);
}

#[test]
fn test_unauthorized_transfer() {
    let creator = Address::new("namada1creator");
    let unauthorized = Address::new("namada1unauthorized");
    let recipient = Address::new("namada1recipient");
    let fee_collector = Address::new("namada1feecollector");

    let mut collection =
        NftCollection::new("Test Collection".to_string(), fee_collector, 10).unwrap();

    let metadata = NftMetadata {
        token_id: TokenId::placeholder(),
        name: "Test NFT".to_string(),
        description: Some("NFT for unauthorized transfer test".to_string()),
        uri: Some("ipfs://example-cid".to_string()),
        creator: creator.clone(),
        attributes: HashMap::new(),
        transferable: true,
        privacy_config: None,
    };

    let token_id = collection
        .mint(&mut TxContext::new(creator.clone()), metadata, None)
        .expect("Minting should succeed");

    let result = collection.transfer(
        &mut TxContext::new(unauthorized.clone()),
        token_id,
        &unauthorized,
        &recipient,
        Some(Amount::from(1_000_000u64)),
    );
    assert!(matches!(result, Err(NftError::Unauthorized)));
}

#[test]
fn sale_splits_fee_and_royalties_exactly() {
    let creator = Address::new("namada1creator");
    let second = Address::new("namada1second");
    let buyer = Address::new("namada1buyer");
    let fee_collector = Address::new("namada1feecollector");
    let mut c = NftCollection::new("C".to_string(), fee_collector.clone(), 10).unwrap();
    let ctx = TxContext::new(creator.clone());
    let id = c
        .mint(
            &ctx,
            plain_metadata(&creator, true),
            Some(royalty(&creator, 500, vec![(second.clone(), 250)])),
        )
        .unwrap();
    let out = c.transfer(&ctx, id, &creator, &buyer, Some(1_000_000)).unwrap();
    assert_eq!(out.new_owner, buyer);
    assert_eq!(out.program_fee, Some((fee_collector.clone(), 1_000)));
    assert_eq!(
        out.royalties,
        Some(vec![(creator.clone(), 50_000), (second.clone(), 25_000)])
    );
    let paid: u64 = out.program_fee.as_ref().unwrap().1
        + out.royalties.as_ref().unwrap().iter().map(|p| p.1).sum::<u64>();
    assert_eq!(1_000_000 - paid, 924_000);
    assert_eq!(c.owner_of(id), Some(buyer));

    let d = distribute(
        Some(1_000_000),
        10,
        &fee_collector,
        &Some(royalty(&creator, 500, vec![(second, 250)])),
    )
    .unwrap();
    assert_eq!(d.seller_share, 924_000);
}

#[test]
fn royalty_over_full_price_is_rejected() {
    let creator = Address::new("namada1creator");
    let x = Address::new("namada1x");
    let mut c = NftCollection::new("C".to_string(), Address::new("namada1fee"), 10).unwrap();
    let ctx = TxContext::new(creator.clone());
    let r = c.mint(
        &ctx,
        plain_metadata(&creator, true),
        Some(royalty(&creator, 500, vec![(x, 9600)])),
    );
    assert_eq!(r, Err(NftError::InvalidRoyaltyConfig));
    assert_eq!(c.owner_of(TokenId { serial: 0 }), None);
    assert!(c.tokens.is_empty());
}

#[test]
fn royalty_of_exactly_full_price_is_accepted() {
    let creator = Address::new("namada1creator");
    let x = Address::new("namada1x");
    let mut c = NftCollection::new("C".to_string(), Address::new("namada1fee"), 0).unwrap();
    let ctx = TxContext::new(creator.clone());
    let r = c.mint(
        &ctx,
        plain_metadata(&creator, true),
        Some(royalty(&creator, 500, vec![(x.clone(), 9000), (x, 500)])),
    );
    assert_eq!(r, Ok(TokenId { serial: 0 }));
    assert!(validate_royalty_config(&royalty(&creator, 10000, vec![])));
    assert!(!validate_royalty_config(&royalty(&creator, 10001, vec![])));
    assert!(!validate_royalty_config(&royalty(&creator, 0, vec![(creator.clone(), 10001)])));
}

#[test]
fn mints_get_distinct_ids_owned_by_creators() {
    let a = Address::new("namada1a");
    let b = Address::new("namada1b");
    let mut c = NftCollection::new("C".to_string(), Address::new("namada1fee"), 10).unwrap();
    let ctx = TxContext::new(a.clone());
    let i0 = c.mint(&ctx, plain_metadata(&a, true), None).unwrap();
    let i1 = c.mint(&ctx, plain_metadata(&b, true), None).unwrap();
    let i2 = c.mint(&ctx, plain_metadata(&a, false), None).unwrap();
    assert_ne!(i0, i1);
    assert_ne!(i1, i2);
    assert_ne!(i0, i2);
    assert_eq!(c.owner_of(i0), Some(a.clone()));
    assert_eq!(c.owner_of(i1), Some(b.clone()));
    assert_eq!(c.owner_of(i2), Some(a.clone()));
    assert_eq!(c.metadata_of(i1).unwrap().token_id, i1);
    assert_eq!(c.tokens_owned_by(&a), vec![i0, i2]);
    assert_eq!(c.tokens_owned_by(&b), vec![i1]);
}

#[test]
fn transfer_by_non_owner_changes_nothing() {
    let owner = Address::new("namada1owner");
    let other = Address::new("namada1other");
    let to = Address::new("namada1to");
    let mut c = NftCollection::new("C".to_string(), Address::new("namada1fee"), 10).unwrap();
    let id = c.mint(&TxContext::new(owner.clone()), plain_metadata(&owner, true), None).unwrap();
    let r = c.transfer(&TxContext::new(other.clone()), id, &other, &to, None);
    assert!(matches!(r, Err(NftError::Unauthorized)));
    assert_eq!(c.owner_of(id), Some(owner.clone()));
    // A caller acting under another identity than `from` is refused too.
    let r = c.transfer(&TxContext::new(other.clone()), id, &owner, &to, None);
    assert!(matches!(r, Err(NftError::Unauthorized)));
    assert_eq!(c.owner_of(id), Some(owner));
}

#[test]
fn non_transferable_token_never_moves() {
    let owner = Address::new("namada1owner");
    let to = Address::new("namada1to");
    let mut c = NftCollection::new("C".to_string(), Address::new("namada1fee"), 10).unwrap();
    let ctx = TxContext::new(owner.clone());
    let id = c.mint(&ctx, plain_metadata(&owner, false), None).unwrap();
    let r = c.transfer(&ctx, id, &owner, &to, None);
    assert!(matches!(r, Err(NftError::NotTransferable)));
    let r = c.transfer(&ctx, id, &owner, &to, Some(500));
    assert!(matches!(r, Err(NftError::NotTransferable)));
    assert_eq!(c.owner_of(id), Some(owner));
}

#[test]
fn transfer_without_price_pays_nothing() {
    let owner = Address::new("namada1owner");
    let to = Address::new("namada1to");
    let mut c = NftCollection::new("C".to_string(), Address::new("namada1fee"), 10).unwrap();
    let ctx = TxContext::new(owner.clone());
    let id = c
        .mint(&ctx, plain_metadata(&owner, true), Some(royalty(&owner, 500, vec![])))
        .unwrap();
    let out = c.transfer(&ctx, id, &owner, &to, None).unwrap();
    assert_eq!(out.new_owner, to);
    assert!(out.royalties.is_none());
    assert!(out.program_fee.is_none());
    assert_eq!(c.owner_of(id), Some(to.clone()));
    assert_eq!(c.tokens_owned_by(&owner), Vec::<TokenId>::new());
    assert_eq!(c.tokens_owned_by(&to), vec![id]);
}

#[test]
fn sale_amounts_add_up_to_price() {
    let creator = Address::new("namada1creator");
    let r1 = Address::new("namada1r1");
    let fee = Address::new("namada1fee");
    let cfg = Some(royalty(&creator, 333, vec![(r1.clone(), 17), (r1, 0)]));
    for v in [0u64, 1, 9_999, 10_001, 123_457, u64::MAX] {
        let d = distribute(Some(v), 77, &fee, &cfg).unwrap();
        let fee_amount = d.fee.as_ref().unwrap().1 as u128;
        let royalties: u128 = d.royalties.as_ref().unwrap().iter().map(|p| p.1 as u128).sum();
        assert_eq!(fee_amount + royalties + d.seller_share as u128, v as u128);
    }
}

#[test]
fn zero_royalty_shares_are_listed() {
    let creator = Address::new("namada1creator");
    let r1 = Address::new("namada1r1");
    let fee = Address::new("namada1fee");
    let d = distribute(Some(10), 10, &fee, &Some(royalty(&creator, 500, vec![(r1.clone(), 250)])))
        .unwrap();
    assert_eq!(d.fee, Some((fee, 0)));
    assert_eq!(d.royalties, Some(vec![(creator, 0), (r1, 0)]));
    assert_eq!(d.seller_share, 10);
}

#[test]
fn distribute_without_price_or_royalty() {
    let fee = Address::new("namada1fee");
    let d = distribute(None, 10, &fee, &None).unwrap();
    assert!(d.royalties.is_none());
    assert!(d.fee.is_none());
    assert_eq!(d.seller_share, 0);
    let d = distribute(Some(1_000), 100, &fee, &None).unwrap();
    assert!(d.royalties.is_none());
    assert_eq!(d.fee, Some((fee, 10)));
    assert_eq!(d.seller_share, 990);
}

#[test]
fn fee_and_royalty_beyond_price_overflow() {
    let owner = Address::new("namada1owner");
    let to = Address::new("namada1to");
    let mut c = NftCollection::new("C".to_string(), Address::new("namada1fee"), 10000).unwrap();
    let ctx = TxContext::new(owner.clone());
    let id = c
        .mint(&ctx, plain_metadata(&owner, true), Some(royalty(&owner, 500, vec![])))
        .unwrap();
    let r = c.transfer(&ctx, id, &owner, &to, Some(1_000_000));
    assert!(matches!(r, Err(NftError::ArithmeticOverflow)));
    assert_eq!(c.owner_of(id), Some(owner.clone()));
    // Without a price nothing is divided, so the same transfer goes through.
    assert!(c.transfer(&ctx, id, &owner, &to, None).is_ok());
}

#[test]
fn transfer_of_unknown_token_fails() {
    let owner = Address::new("namada1owner");
    let mut c = NftCollection::new("C".to_string(), Address::new("namada1fee"), 10).unwrap();
    let ctx = TxContext::new(owner.clone());
    let r = c.transfer(&ctx, TokenId { serial: 3 }, &owner, &owner, None);
    assert!(matches!(r, Err(NftError::TokenNotFound)));
    assert!(c.metadata_of(TokenId { serial: 3 }).is_none());
}

#[test]
fn collection_fee_must_not_exceed_whole() {
    let fee = Address::new("namada1fee");
    assert!(matches!(
        NftCollection::new("C".to_string(), fee.clone(), 10001),
        Err(NftError::InvalidFeeConfig)
    ));
    let c = NftCollection::new("C".to_string(), fee.clone(), 10000).unwrap();
    assert_eq!(c.fee_basis_points, 10000);
    assert_eq!(c.fee_collector, fee);
    assert_eq!(c.name, "C");
}

#[test]
fn split_rounds_down_and_checks_overflow() {
    assert_eq!(split(1_000_000, 10), Ok(1_000));
    assert_eq!(split(9_999, 1), Ok(0));
    assert_eq!(split(19_999, 1), Ok(1));
    assert_eq!(split(u64::MAX, 10000), Ok(u64::MAX));
    assert_eq!(split(u64::MAX, 20000), Err(NftError::ArithmeticOverflow));
    assert_eq!(split(u64::MAX / 2, 20000), Ok(u64::MAX / 2 * 2));
}

#[test]
fn caller_must_match_required_identity() {
    let a = Address::new("namada1a");
    let b = Address::new("namada1b");
    assert_eq!(require_caller(&a, &a.clone()), Ok(()));
    assert_eq!(require_caller(&a, &b), Err(NftError::Unauthorized));
    assert_eq!(a.as_str(), "namada1a");
}

#[test]
fn explorer_urls() {
    let explorer = NamadaExplorer::new("https://testnet-explorer.namada.network");
    let url = explorer.get_nft_token_url(&TokenId { serial: 255 });
    assert_eq!(
        url,
        format!("https://testnet-explorer.namada.network/token/{}FF", "0".repeat(62))
    );
    let wallet = Address::new("namada1wallet");
    assert_eq!(
        explorer.get_wallet_nfts_url(&wallet),
        "https://testnet-explorer.namada.network/address/namada1wallet/nfts"
    );
}

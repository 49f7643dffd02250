use dutch_auction_vault::decimal::Decimal;
use dutch_auction_vault::error::ContractError;
use dutch_auction_vault::fungible::CheckedFungibleAsset;
use dutch_auction_vault::state::{CheckedNft, MarketConfig};

fn create_market_config(
    seller_address: Option<String>,
    seller_nft: Option<CheckedNft>,
    spend_asset: CheckedFungibleAsset,
    unit_asset: CheckedFungibleAsset,
    start_price: Decimal,
    min_price: Decimal,
    target_duration: u128,
) -> MarketConfig {
    MarketConfig {
        seller_address,
        seller_nft,
        spend_asset,
        unit_asset,
        start_price,
        min_price,
        target_duration,
    }
}

#[test]
fn test_market_config_validation() {
    let spend_asset = CheckedFungibleAsset::Native { denom: "spend_asset".to_string() };

    let unit_asset = CheckedFungibleAsset::Native { denom: "unit_asset".to_string() };

    let seller_address = "seller_address".to_string();
    let seller_nft =
        CheckedNft { contract_addr: "nft_contract".to_string(), token_id: "token_id".to_string() };

    let config1 = create_market_config(
        Some(seller_address.clone()),
        None,
        spend_asset.clone(),
        unit_asset.clone(),
        Decimal::one(),
        Decimal::one(),
        1u128,
    );
    assert_eq!(config1.validate(), Ok(()));

    let config2 = create_market_config(
        None,
        Some(seller_nft.clone()),
        spend_asset.clone(),
        unit_asset.clone(),
        Decimal::one(),
        Decimal::one(),
        1u128,
    );
    assert_eq!(config2.validate(), Ok(()));

    let config3 = create_market_config(
        Some(seller_address),
        Some(seller_nft),
        spend_asset.clone(),
        unit_asset.clone(),
        Decimal::one(),
        Decimal::one(),
        1u128,
    );
    assert_eq!(config3.validate(), Err(ContractError::CannotSetBothSellerAddressAndNft {}));

    let config4 = create_market_config(
        None,
        None,
        spend_asset,
        unit_asset,
        Decimal::one(),
        Decimal::one(),
        1u128,
    );
    assert_eq!(config4.validate(), Err(ContractError::MustSetEitherSellerAddressOrNft {}));
}

#[test]
fn a_target_duration_of_zero_is_refused() {
    let config = create_market_config(
        Some("seller".to_string()),
        None,
        CheckedFungibleAsset::Native { denom: "spend".to_string() },
        CheckedFungibleAsset::Native { denom: "unit".to_string() },
        Decimal::one(),
        Decimal::one(),
        0u128,
    );
    assert_eq!(config.validate(), Err(ContractError::TargetDurationCannotBeZero {}));
}

#[test]
fn the_seller_mode_is_judged_before_the_duration() {
    let config = create_market_config(
        None,
        None,
        CheckedFungibleAsset::Native { denom: "spend".to_string() },
        CheckedFungibleAsset::Native { denom: "unit".to_string() },
        Decimal::one(),
        Decimal::one(),
        0u128,
    );
    assert_eq!(config.validate(), Err(ContractError::MustSetEitherSellerAddressOrNft {}));
}

#[test]
fn the_seller_is_known_by_address_and_the_token_by_collection_and_id() {
    let config = create_market_config(
        Some("seller".to_string()),
        Some(CheckedNft { contract_addr: "collection".to_string(), token_id: "7".to_string() }),
        CheckedFungibleAsset::Native { denom: "spend".to_string() },
        CheckedFungibleAsset::Native { denom: "unit".to_string() },
        Decimal::one(),
        Decimal::one(),
        1u128,
    );
    assert!(config.is_seller(&"seller".to_string()));
    assert!(!config.is_seller(&"buyer".to_string()));
    assert!(config.is_seller_nft(&"collection".to_string(), &"7".to_string()));
    assert!(!config.is_seller_nft(&"collection".to_string(), &"8".to_string()));
    assert!(!config.is_seller_nft(&"other".to_string(), &"7".to_string()));
}

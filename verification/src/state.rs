//! The records that a sale keeps between calls.

use vstd::prelude::*;
use crate::decimal::Decimal;
use crate::error::ContractError;
use crate::fungible::{AssetView, CheckedFungibleAsset};
use crate::market::Market;

verus! {

/// A token of a collection kept by the contract at `contract_addr`.
#[derive(Debug, PartialEq, Eq)]
pub struct CheckedNft {
    pub contract_addr: String,
    pub token_id: String,
}

/// A token of a collection as a mathematical value.
pub struct CheckedNftView {
    pub contract_addr: Seq<char>,
    pub token_id: Seq<char>,
}

/// The parameters of a sale.
///
/// The seller is named in one of two ways: by address, or by a token whose
/// depositor becomes the seller.
#[derive(Debug, PartialEq, Eq)]
pub struct MarketConfig {
    pub seller_address: Option<String>,
    pub seller_nft: Option<CheckedNft>,
    pub spend_asset: CheckedFungibleAsset,
    pub unit_asset: CheckedFungibleAsset,
    pub start_price: Decimal,
    pub min_price: Decimal,
    pub target_duration: u128,
}

/// The parameters of a sale as a mathematical value.
pub struct MarketConfigView {
    pub seller_address: Option<Seq<char>>,
    pub seller_nft: Option<CheckedNftView>,
    pub spend_asset: AssetView,
    pub unit_asset: AssetView,
    pub start_price: Decimal,
    pub min_price: Decimal,
    pub target_duration: u128,
}

/// The four records of a sale: its parameters; its accounting and its start
/// time, both absent until the sale is scheduled; and the proceeds withdrawn
/// so far, absent until the first withdrawal.
#[derive(Debug, PartialEq, Eq)]
pub struct Store {
    pub market_config: MarketConfig,
    pub market_state: Option<Market>,
    pub unix_start: Option<u64>,
    pub total_withdrawn: Option<u128>,
}

/// The records of a sale as a mathematical value.
pub struct StoreView {
    pub market_config: MarketConfigView,
    pub market_state: Option<Market>,
    pub unix_start: Option<u64>,
    pub total_withdrawn: Option<u128>,
}

impl View for CheckedNft {
    type V = CheckedNftView;

    open spec fn view(&self) -> CheckedNftView {
        CheckedNftView { contract_addr: self.contract_addr@, token_id: self.token_id@ }
    }
}

impl View for MarketConfig {
    type V = MarketConfigView;

    open spec fn view(&self) -> MarketConfigView {
        MarketConfigView {
            seller_address: match self.seller_address {
                Some(address) => Some(address@),
                None => None,
            },
            seller_nft: match self.seller_nft {
                Some(nft) => Some(nft@),
                None => None,
            },
            spend_asset: self.spend_asset@,
            unit_asset: self.unit_asset@,
            start_price: self.start_price,
            min_price: self.min_price,
            target_duration: self.target_duration,
        }
    }
}

impl View for Store {
    type V = StoreView;

    open spec fn view(&self) -> StoreView {
        StoreView {
            market_config: self.market_config@,
            market_state: self.market_state,
            unix_start: self.unix_start,
            total_withdrawn: self.total_withdrawn,
        }
    }
}

impl Clone for CheckedNft {
    fn clone(&self) -> (copy: CheckedNft)
        ensures
            copy == *self,
    {
        CheckedNft { contract_addr: self.contract_addr.clone(), token_id: self.token_id.clone() }
    }
}

impl Clone for MarketConfig {
    fn clone(&self) -> (copy: MarketConfig)
        ensures
            copy == *self,
    {
        MarketConfig {
            seller_address: match &self.seller_address {
                Some(address) => Some(address.clone()),
                None => None,
            },
            seller_nft: match &self.seller_nft {
                Some(nft) => Some(nft.clone()),
                None => None,
            },
            spend_asset: self.spend_asset.clone(),
            unit_asset: self.unit_asset.clone(),
            start_price: self.start_price,
            min_price: self.min_price,
            target_duration: self.target_duration,
        }
    }
}

impl Clone for Store {
    fn clone(&self) -> (copy: Store)
        ensures
            copy == *self,
    {
        Store {
            market_config: self.market_config.clone(),
            market_state: self.market_state,
            unix_start: self.unix_start,
            total_withdrawn: self.total_withdrawn,
        }
    }
}

impl MarketConfigView {
    /// Whether the parameters are fit for a sale: the seller is named in
    /// exactly one of the two ways, and the target duration is not zero.
    pub open spec fn spec_validate(self) -> Result<(), ContractError> {
        if self.seller_address is Some && self.seller_nft is Some {
            Err(ContractError::CannotSetBothSellerAddressAndNft {  })
        } else if self.seller_address is None && self.seller_nft is None {
            Err(ContractError::MustSetEitherSellerAddressOrNft {  })
        } else if self.target_duration == 0 {
            Err(ContractError::TargetDurationCannotBeZero {  })
        } else {
            Ok(())
        }
    }

    /// Whether `sender` is the seller.
    pub open spec fn is_seller(self, sender: Seq<char>) -> bool {
        self.seller_address == Some(sender)
    }

    /// Whether the token `token_id` of the collection at `collection` is the
    /// one whose depositor becomes the seller.
    pub open spec fn is_seller_nft(self, collection: Seq<char>, token_id: Seq<char>) -> bool {
        self.seller_nft == Some(CheckedNftView { contract_addr: collection, token_id })
    }
}

impl MarketConfig {
    /// Refuses parameters that name the seller in both ways or in neither,
    /// and a target duration of zero.
    pub fn validate(&self) -> (r: Result<(), ContractError>)
        ensures
            r == self@.spec_validate(),
    {
        match (self.seller_address.is_some(), self.seller_nft.is_some()) {
            (true, true) => Err(ContractError::CannotSetBothSellerAddressAndNft {  }),
            (false, false) => Err(ContractError::MustSetEitherSellerAddressOrNft {  }),
            _ => if self.target_duration == 0 {
                Err(ContractError::TargetDurationCannotBeZero {  })
            } else {
                Ok(())
            },
        }
    }

    /// Whether `sender` is the seller.
    pub fn is_seller(&self, sender: &String) -> (seller: bool)
        ensures
            seller == self@.is_seller(sender@),
    {
        match &self.seller_address {
            Some(address) => *address == *sender,
            None => false,
        }
    }

    /// Whether the token `token_id` of the collection at `collection` is the
    /// one whose depositor becomes the seller.
    pub fn is_seller_nft(&self, collection: &String, token_id: &String) -> (named: bool)
        ensures
            named == self@.is_seller_nft(collection@, token_id@),
    {
        match &self.seller_nft {
            Some(nft) => nft.contract_addr == *collection && nft.token_id == *token_id,
            None => false,
        }
    }
}

impl StoreView {
    /// The proceeds withdrawn so far.
    pub open spec fn withdrawn(self) -> u128 {
        match self.total_withdrawn {
            Some(withdrawn) => withdrawn,
            None => 0,
        }
    }

    /// The proceeds collected so far.
    pub open spec fn spent(self) -> u128 {
        match self.market_state {
            Some(market) => market.total_spent,
            None => 0,
        }
    }

    /// What holds of the records of every sale: the accounting and the start
    /// time are present together, and no more has been withdrawn than collected.
    pub open spec fn wf(self) -> bool {
        &&& self.market_state is Some <==> self.unix_start is Some
        &&& self.withdrawn() <= self.spent()
    }
}

} // verus!

//! The messages that a sale takes and the answer to a query.

use std::collections::HashMap;
use vstd::prelude::*;
use crate::decimal::Decimal;
use crate::error::StdError;
use crate::fungible::FungibleAsset;
use crate::market::Market;
use crate::state::MarketConfig;

verus! {

/// A token of a collection as a message names it, before the host has confirmed the address.
#[derive(Debug, PartialEq, Eq)]
pub struct UncheckedNft {
    pub contract_addr: String,
    pub token_id: String,
}

/// A change of the voting powers of a set of validators.
#[derive(Debug, PartialEq, Eq)]
pub struct ValsetUpdate {
    pub nonce: u128,
    pub power: u128,
    /// The power of each validator, by its address.
    pub valset: HashMap<String, u128>,
}

/// The parameters with which a sale is set up.
#[derive(Debug, PartialEq, Eq)]
pub struct InstantiateMsg {
    /// How much of the spend asset one unit costs at the start.
    pub start_price: Decimal,
    /// The price below which no unit is sold.
    pub min_price: Decimal,
    /// The seconds in which the supply is meant to sell.
    pub target_duration: u128,
    /// The asset in which buyers pay.
    pub spend_asset: FungibleAsset,
    /// The asset that is sold.
    pub unit_asset: FungibleAsset,
    /// The seller, unless a token names the seller.
    pub seller_address: Option<String>,
    /// The token whose depositor becomes the seller, unless an address names the seller.
    pub seller_nft: Option<UncheckedNft>,
}

impl Clone for UncheckedNft {
    fn clone(&self) -> (copy: UncheckedNft)
        ensures
            copy == *self,
    {
        UncheckedNft { contract_addr: self.contract_addr.clone(), token_id: self.token_id.clone() }
    }
}

impl Clone for InstantiateMsg {
    fn clone(&self) -> (copy: InstantiateMsg)
        ensures
            copy == *self,
    {
        InstantiateMsg {
            start_price: self.start_price,
            min_price: self.min_price,
            target_duration: self.target_duration,
            spend_asset: self.spend_asset.clone(),
            unit_asset: self.unit_asset.clone(),
            seller_address: match &self.seller_address {
                Some(address) => Some(address.clone()),
                None => None,
            },
            seller_nft: match &self.seller_nft {
                Some(nft) => Some(nft.clone()),
                None => None,
            },
        }
    }
}

/// What a payment is for.
#[derive(Clone, Copy, Debug, PartialEq, Eq, Structural)]
pub enum ReceiveMsg {
    /// Adds to the supply, with the assurance that the asset is the unit asset.
    ProvideUnits {  },
    /// Buys `units`; what was paid beyond their cost is sent back.
    BuyUnits { units: u128 },
}

/// What the deposit of a token is for.
#[derive(Clone, Copy, Debug, PartialEq, Eq, Structural)]
pub enum ReceiveNftMsg {
    ScheduleAuction { start_time_unix: u64 },
}

/// A payment in a token, as its contract reports it.
#[derive(Debug, PartialEq, Eq)]
pub struct Cw20Receipt {
    /// Who paid.
    pub sender: String,
    pub amount: u128,
    pub msg: ReceiveMsg,
}

/// The deposit of a token of a collection, as its contract reports it.
#[derive(Debug, PartialEq, Eq)]
pub struct NftReceipt {
    /// Who deposited the token, or why the host refused the address.
    pub sender: Result<String, StdError>,
    pub token_id: String,
    /// What the deposit is for, or why that could not be read.
    pub msg: Result<ReceiveNftMsg, StdError>,
}

/// A call that may change the records of a sale.
#[derive(Debug, PartialEq, Eq)]
pub enum ExecuteMsg {
    /// A payment in a token; the caller is the token's contract.
    Receive(Cw20Receipt),
    /// A payment in native coin, sent along with the call.
    Fund(ReceiveMsg),
    /// The deposit of the token that names the seller; schedules the sale.
    ReceiveNft(NftReceipt),
    /// Schedules the sale, where an address names the seller.
    ScheduleAuction { start_time_unix: u64 },
    /// Sends the seller the proceeds not yet withdrawn.
    WithdrawEarnings {  },
}

impl ExecuteMsg {
    /// Whether the message asks to schedule the sale.
    pub open spec fn spec_asks_to_schedule(self) -> bool {
        self is ScheduleAuction || self is ReceiveNft
    }

    /// Whether the message asks to schedule the sale. No other call reads
    /// what the sale holds of the unit asset.
    pub fn asks_to_schedule(&self) -> (asks: bool)
        ensures
            asks == self.spec_asks_to_schedule(),
    {
        match self {
            ExecuteMsg::ScheduleAuction { .. } => true,
            ExecuteMsg::ReceiveNft(_) => true,
            _ => false,
        }
    }
}

/// A call to bring the records to a newer form. No form of it is accepted.
#[derive(Clone, Copy, Debug, PartialEq, Eq, Structural)]
pub struct MigrateMsg {

}

/// A question to a sale.
#[derive(Clone, Copy, Debug, PartialEq, Eq, Structural)]
pub enum QueryMsg {
    GetMarketState {  },
}

/// The records of a sale, as a query shows them.
#[derive(Debug, PartialEq, Eq)]
pub struct MarketStateResponse {
    pub market: Option<Market>,
    pub unix_start_time: Option<u64>,
    pub config: MarketConfig,
}

} // verus!

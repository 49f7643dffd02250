//! The lifecycle of a sale: it is set up, scheduled once by its seller, and
//! from its start on sells units and pays out the proceeds.
//!
//! Each call is given the records of the sale and either changes them and
//! answers with a [`Response`], or is rejected and leaves them as they were.
//! The records are brought up to date before the orders that move assets are
//! made out.

use vstd::prelude::*;
use crate::contract_lemmas::lemma_execute_keeps_ledger;
use crate::error::{ContractError, StdError};
use crate::fungible::{AssetView, CheckedFungibleAsset, FungibleAsset, SendMessage};
use crate::host::{spec_one_coin, Env, MessageInfo, Response, ResponseView};
use crate::market::{Cost, Market};
use crate::msg::{
    ExecuteMsg,
    InstantiateMsg,
    MarketStateResponse,
    MigrateMsg,
    NftReceipt,
    QueryMsg,
    ReceiveMsg,
    ReceiveNftMsg,
};
use crate::state::{CheckedNft, CheckedNftView, MarketConfig, MarketConfigView, Store, StoreView};

verus! {

/// The parameters of the sale that a message sets up.
pub open spec fn spec_config(msg: InstantiateMsg) -> MarketConfigView {
    MarketConfigView {
        seller_address: match msg.seller_address {
            Some(address) => Some(address@),
            None => None,
        },
        seller_nft: match msg.seller_nft {
            Some(nft) => Some(CheckedNftView { contract_addr: nft.contract_addr@, token_id: nft.token_id@ }),
            None => None,
        },
        spend_asset: msg.spend_asset@,
        unit_asset: msg.unit_asset@,
        start_price: msg.start_price,
        min_price: msg.min_price,
        target_duration: msg.target_duration,
    }
}

/// Setting up a sale: the parameters must be fit for one; nothing is scheduled yet.
pub open spec fn spec_instantiate(owner: Seq<char>, msg: InstantiateMsg) -> Result<
    (StoreView, ResponseView),
    ContractError,
> {
    match spec_config(msg).spec_validate() {
        Err(e) => Err(e),
        Ok(_) => Ok(
            (
                StoreView {
                    market_config: spec_config(msg),
                    market_state: None,
                    unix_start: None,
                    total_withdrawn: None,
                },
                ResponseView::new().add_text("method"@, "instantiate"@).add_text("owner"@, owner),
            ),
        ),
    }
}

/// The accounting of a sale of `total_units` that has sold nothing yet.
pub open spec fn spec_fresh_market(config: MarketConfigView, total_units: u128) -> Market {
    Market {
        start_price: config.start_price,
        min_price: config.min_price,
        units_sold: 0,
        target_duration: config.target_duration,
        total_spent: 0,
        total_units,
    }
}

/// Scheduling: only the seller may, only once, and not for a time that has
/// passed. The supply is what the sale holds of the unit asset.
pub open spec fn spec_schedule_auction(store: StoreView, env: Env, sender: Seq<char>, start: u64) -> Result<
    (StoreView, ResponseView),
    ContractError,
> {
    if !store.market_config.is_seller(sender) {
        Err(ContractError::Unauthorized {  })
    } else {
        match env.unit_balance {
            Err(e) => Err(ContractError::Std(e)),
            Ok(total_units) => if store.unix_start is Some {
                Err(ContractError::AuctionAlreadyScheduled {  })
            } else if start < env.block_time {
                Err(ContractError::AuctionStartTimeInThePast {  })
            } else {
                Ok(
                    (
                        StoreView {
                            market_state: Some(spec_fresh_market(store.market_config, total_units)),
                            unix_start: Some(start),
                            ..store
                        },
                        ResponseView::new().add_text("method"@, "schedule_auction"@).add_number(
                            "start_time_unix"@,
                            start as u128,
                        ),
                    ),
                )
            },
        }
    }
}

/// The deposit of the token that names the seller: the depositor becomes the
/// seller and the sale is scheduled.
pub open spec fn spec_receive_nft(store: StoreView, env: Env, collection: Seq<char>, receipt: NftReceipt) -> Result<
    (StoreView, ResponseView),
    ContractError,
> {
    if !store.market_config.is_seller_nft(collection, receipt.token_id@) {
        Err(ContractError::Unauthorized {  })
    } else {
        match receipt.msg {
            Err(e) => Err(ContractError::Std(e)),
            Ok(ReceiveNftMsg::ScheduleAuction { start_time_unix }) => match receipt.sender {
                Err(e) => Err(ContractError::Std(e)),
                Ok(sender) => spec_schedule_auction(
                    StoreView {
                        market_config: MarketConfigView {
                            seller_address: Some(sender@),
                            ..store.market_config
                        },
                        ..store
                    },
                    env,
                    sender@,
                    start_time_unix,
                ),
            },
        }
    }
}

/// Adding to the supply: the asset must be the unit asset; no record changes.
pub open spec fn spec_provide_units(store: StoreView, sender: Seq<char>, asset: AssetView, amount: u128) -> Result<
    ResponseView,
    ContractError,
> {
    if store.market_config.unit_asset != asset {
        Err(ContractError::WrongAsset {  })
    } else {
        Ok(
            ResponseView::new().add_text("method"@, "provide_units"@).add_text(
                "provider"@,
                sender,
            ).add_number("units"@, amount),
        )
    }
}

/// The answer to a purchase: the units go to the buyer, and so does what
/// was paid beyond the cost.
pub open spec fn spec_purchase_response(
    config: MarketConfigView,
    buyer: Seq<char>,
    paid: u128,
    units: u128,
    cost: u128,
) -> ResponseView
    recommends
        cost <= paid,
{
    ResponseView::new().add_message(config.unit_asset.send_message(units, buyer)).add_messages(
        if paid == cost {
            Seq::empty()
        } else {
            seq![config.spend_asset.send_message((paid - cost) as u128, buyer)]
        },
    ).add_text("method"@, "buy_units"@).add_text("buyer"@, buyer).add_number("units"@, units).add_number(
        "cost"@,
        cost,
    )
}

/// A purchase: the payment must be in the spend asset, the sale scheduled
/// and started, and the payment must cover the cost.
pub open spec fn spec_buy_units(
    store: StoreView,
    env: Env,
    sender: Seq<char>,
    asset: AssetView,
    paid: u128,
    units: u128,
) -> Result<(StoreView, ResponseView), ContractError> {
    if store.market_config.spend_asset != asset {
        Err(ContractError::WrongAsset {  })
    } else {
        match store.unix_start {
            None => Err(ContractError::Std(StdError::NotFound)),
            Some(start) => if env.block_time < start {
                Err(ContractError::AuctionHasNotStartedYet {  })
            } else {
                match store.market_state {
                    None => Err(ContractError::Std(StdError::NotFound)),
                    Some(market) => match market.spec_buy(units as int, env.block_time - start) {
                        Err(e) => Err(ContractError::Std(e)),
                        Ok((cost, after)) => if paid < cost {
                            Err(ContractError::InsufficientFunds {  })
                        } else {
                            Ok(
                                (
                                    StoreView { market_state: Some(after), ..store },
                                    spec_purchase_response(
                                        store.market_config,
                                        sender,
                                        paid,
                                        units,
                                        cost as u128,
                                    ),
                                ),
                            )
                        },
                    },
                }
            },
        }
    }
}

/// A payment, for what it says it is for.
pub open spec fn spec_recv_action(
    store: StoreView,
    env: Env,
    sender: Seq<char>,
    asset: AssetView,
    amount: u128,
    action: ReceiveMsg,
) -> Result<(StoreView, ResponseView), ContractError> {
    match action {
        ReceiveMsg::BuyUnits { units } => spec_buy_units(store, env, sender, asset, amount, units),
        ReceiveMsg::ProvideUnits {  } => match spec_provide_units(store, sender, asset, amount) {
            Err(e) => Err(e),
            Ok(response) => Ok((store, response)),
        },
    }
}

/// A withdrawal: only the seller may; the proceeds collected and not yet
/// withdrawn go to the seller, and all proceeds count as withdrawn.
pub open spec fn spec_withdraw_earnings(store: StoreView, sender: Seq<char>) -> Result<
    (StoreView, ResponseView),
    ContractError,
> {
    if !store.market_config.is_seller(sender) {
        Err(ContractError::Unauthorized {  })
    } else {
        match store.market_state {
            None => Err(ContractError::Std(StdError::NotFound)),
            Some(market) => if market.total_spent < store.withdrawn() {
                Err(ContractError::Std(StdError::Overflow))
            } else {
                Ok(
                    (
                        StoreView { total_withdrawn: Some(market.total_spent), ..store },
                        ResponseView::new().add_message(
                            store.market_config.spend_asset.send_message(
                                (market.total_spent - store.withdrawn()) as u128,
                                sender,
                            ),
                        ).add_text("method"@, "withdraw_earnings"@).add_text("seller"@, sender).add_number(
                            "payout"@,
                            (market.total_spent - store.withdrawn()) as u128,
                        ),
                    ),
                )
            },
        }
    }
}

/// A call, for what its message asks.
pub open spec fn spec_execute(store: StoreView, env: Env, info: MessageInfo, msg: ExecuteMsg) -> Result<
    (StoreView, ResponseView),
    ContractError,
> {
    match msg {
        ExecuteMsg::Receive(receipt) => spec_recv_action(
            store,
            env,
            receipt.sender@,
            AssetView::Cw20 { contract_addr: info.sender@ },
            receipt.amount,
            receipt.msg,
        ),
        ExecuteMsg::Fund(action) => match spec_one_coin(info.funds@) {
            Err(e) => Err(ContractError::PaymentError(e)),
            Ok(coin) => spec_recv_action(
                store,
                env,
                info.sender@,
                AssetView::Native { denom: coin.denom@ },
                coin.amount,
                action,
            ),
        },
        ExecuteMsg::ReceiveNft(receipt) => spec_receive_nft(store, env, info.sender@, receipt),
        ExecuteMsg::ScheduleAuction { start_time_unix } => spec_schedule_auction(
            store,
            env,
            info.sender@,
            start_time_unix,
        ),
        ExecuteMsg::WithdrawEarnings {  } => spec_withdraw_earnings(store, info.sender@),
    }
}

/// Whether a call ended as its description says: with that answer and those
/// records, or rejected for that reason with the records as they were.
pub open spec fn outcome_is(
    r: Result<Response, ContractError>,
    before: Store,
    after: Store,
    described: Result<(StoreView, ResponseView), ContractError>,
) -> bool {
    match described {
        Ok((store, response)) => r is Ok && r->Ok_0@ == response && after@ == store,
        Err(e) => r == Err::<Response, ContractError>(e) && after == before,
    }
}

/// Sets up a sale with the parameters of `msg`, whose addresses and assets
/// the host has confirmed.
pub fn instantiate(info: &MessageInfo, msg: InstantiateMsg) -> (r: Result<(Store, Response), ContractError>)
    ensures
        match spec_instantiate(info.sender@, msg) {
            Ok((store, response)) => r is Ok && r->Ok_0.0@ == store && r->Ok_0.1@ == response,
            Err(e) => r == Err::<(Store, Response), ContractError>(e),
        },
{
    let market_config = MarketConfig {
        seller_address: msg.seller_address,
        seller_nft: match msg.seller_nft {
            Some(nft) => Some(CheckedNft { contract_addr: nft.contract_addr, token_id: nft.token_id }),
            None => None,
        },
        spend_asset: msg.spend_asset.into_checked(),
        unit_asset: msg.unit_asset.into_checked(),
        start_price: msg.start_price,
        min_price: msg.min_price,
        target_duration: msg.target_duration,
    };
    match market_config.validate() {
        Ok(_) => {},
        Err(e) => { return Err(e); },
    }
    let store = Store { market_config, market_state: None, unix_start: None, total_withdrawn: None };
    let response = Response::new().add_attribute("method", "instantiate".to_owned()).add_attribute(
        "owner",
        info.sender.clone(),
    );
    Ok((store, response))
}

/// Refuses to bring the records to a newer form. No form of the message is
/// accepted, so each is refused as one that cannot be read.
pub fn migrate(msg: MigrateMsg) -> (r: Result<Response, ContractError>)
    ensures
        r == Err::<Response, ContractError>(ContractError::Std(StdError::ParseErr)),
{
    Err(ContractError::Std(StdError::ParseErr))
}

/// Carries out a call.
pub fn execute(store: &mut Store, env: &Env, info: MessageInfo, msg: ExecuteMsg) -> (r: Result<
    Response,
    ContractError,
>)
    ensures
        outcome_is(r, *old(store), *final(store), spec_execute(old(store)@, *env, info, msg)),
        old(store)@.wf() ==> final(store)@.wf(),
{
    proof {
        if old(store)@.wf() && spec_execute(old(store)@, *env, info, msg) is Ok {
            lemma_execute_keeps_ledger(old(store)@, *env, info, msg);
        }
    }
    match msg {
        ExecuteMsg::Receive(receipt) => {
            let received_asset = CheckedFungibleAsset::Cw20 { contract_addr: info.sender };
            handle_recv_action(store, env, receipt.sender, received_asset, receipt.amount, receipt.msg)
        },
        ExecuteMsg::Fund(recv_action) => {
            let received_coin = match info.one_coin() {
                Ok(coin) => coin,
                Err(e) => { return Err(ContractError::PaymentError(e)); },
            };
            let received_asset = (FungibleAsset::Native { denom: received_coin.denom }).into_checked();
            handle_recv_action(store, env, info.sender, received_asset, received_coin.amount, recv_action)
        },
        ExecuteMsg::ReceiveNft(receipt) => {
            if !store.market_config.is_seller_nft(&info.sender, &receipt.token_id) {
                return Err(ContractError::Unauthorized {  });
            }
            let start_time_unix = match receipt.msg {
                Ok(ReceiveNftMsg::ScheduleAuction { start_time_unix }) => start_time_unix,
                Err(e) => { return Err(ContractError::Std(e)); },
            };
            let sender = match receipt.sender {
                Ok(sender) => sender,
                Err(e) => { return Err(ContractError::Std(e)); },
            };
            let previous = store.market_config.seller_address.take();
            store.market_config.seller_address = Some(sender.clone());
            let r = handle_schedule_auction(store, env, sender, start_time_unix);
            if r.is_err() {
                store.market_config.seller_address = previous;
            }
            r
        },
        ExecuteMsg::ScheduleAuction { start_time_unix } => handle_schedule_auction(
            store,
            env,
            info.sender,
            start_time_unix,
        ),
        ExecuteMsg::WithdrawEarnings {  } => withdraw_earnings(store, &info),
    }
}

/// Schedules the sale to start at `unix_start_draft`, with what the sale
/// holds of the unit asset as its supply.
pub fn handle_schedule_auction(store: &mut Store, env: &Env, sender: String, unix_start_draft: u64) -> (r:
    Result<Response, ContractError>)
    ensures
        outcome_is(
            r,
            *old(store),
            *final(store),
            spec_schedule_auction(old(store)@, *env, sender@, unix_start_draft),
        ),
{
    if !store.market_config.is_seller(&sender) {
        return Err(ContractError::Unauthorized {  });
    }
    let total_units = match env.unit_balance {
        Ok(balance) => balance,
        Err(e) => { return Err(ContractError::Std(e)); },
    };
    let market = Market::new(
        store.market_config.start_price,
        store.market_config.min_price,
        0,
        store.market_config.target_duration,
        0,
        total_units,
    );
    if store.unix_start.is_some() {
        return Err(ContractError::AuctionAlreadyScheduled {  });
    }
    if unix_start_draft < env.block_time {
        return Err(ContractError::AuctionStartTimeInThePast {  });
    }
    store.market_state = Some(market);
    store.unix_start = Some(unix_start_draft);
    Ok(
        Response::new().add_attribute("method", "schedule_auction".to_owned()).add_number(
            "start_time_unix",
            unix_start_draft as u128,
        ),
    )
}

/// Takes a payment for what it says it is for.
pub fn handle_recv_action(
    store: &mut Store,
    env: &Env,
    sender: String,
    received_asset: CheckedFungibleAsset,
    received_amount: u128,
    recv_action: ReceiveMsg,
) -> (r: Result<Response, ContractError>)
    ensures
        outcome_is(
            r,
            *old(store),
            *final(store),
            spec_recv_action(old(store)@, *env, sender@, received_asset@, received_amount, recv_action),
        ),
{
    match recv_action {
        ReceiveMsg::BuyUnits { units } => buy_units(
            store,
            env,
            sender,
            received_asset,
            received_amount,
            units,
        ),
        ReceiveMsg::ProvideUnits {  } => provide_units(store, sender, received_asset, received_amount),
    }
}

/// Vouches that a payment that adds to the supply is in the unit asset.
pub fn provide_units(
    store: &Store,
    sender: String,
    received_asset: CheckedFungibleAsset,
    received_amount: u128,
) -> (r: Result<Response, ContractError>)
    ensures
        match spec_provide_units(store@, sender@, received_asset@, received_amount) {
            Ok(response) => r is Ok && r->Ok_0@ == response,
            Err(e) => r == Err::<Response, ContractError>(e),
        },
{
    if !store.market_config.unit_asset.same_asset(&received_asset) {
        return Err(ContractError::WrongAsset {  });
    }
    Ok(
        Response::new().add_attribute("method", "provide_units".to_owned()).add_attribute(
            "provider",
            sender,
        ).add_number("units", received_amount),
    )
}

/// Sells `units` to `sender` for what they cost now, out of `received_amount`.
pub fn buy_units(
    store: &mut Store,
    env: &Env,
    sender: String,
    received_asset: CheckedFungibleAsset,
    received_amount: u128,
    units: u128,
) -> (r: Result<Response, ContractError>)
    ensures
        outcome_is(
            r,
            *old(store),
            *final(store),
            spec_buy_units(old(store)@, *env, sender@, received_asset@, received_amount, units),
        ),
{
    if !store.market_config.spend_asset.same_asset(&received_asset) {
        return Err(ContractError::WrongAsset {  });
    }
    let unix_start = match store.unix_start {
        Some(start) => start,
        None => { return Err(ContractError::Std(StdError::NotFound)); },
    };
    if env.block_time < unix_start {
        return Err(ContractError::AuctionHasNotStartedYet {  });
    }
    let time_elapsed = (env.block_time - unix_start) as u128;
    let mut market_state = match store.market_state {
        Some(market) => market,
        None => { return Err(ContractError::Std(StdError::NotFound)); },
    };
    let cost = match market_state.buy_units(units, time_elapsed) {
        Ok(Cost(cost)) => cost,
        Err(e) => { return Err(e); },
    };
    if received_amount < cost {
        return Err(ContractError::InsufficientFunds {  });
    }
    let remainder = received_amount - cost;
    store.market_state = Some(market_state);
    let mut change_msgs: Vec<SendMessage> = Vec::new();
    if remainder != 0 {
        change_msgs.push(received_asset.into_send_message(remainder, &sender));
    }
    let payout_msg = store.market_config.unit_asset.clone().into_send_message(units, &sender);
    proof {
        let expected = if received_amount == cost {
            Seq::empty()
        } else {
            seq![old(store)@.market_config.spend_asset.send_message(remainder, sender@)]
        };
        assert(change_msgs@.map_values(|message: SendMessage| message@) =~= expected);
    }
    Ok(
        Response::new().add_message(payout_msg).add_messages(change_msgs).add_attribute(
            "method",
            "buy_units".to_owned(),
        ).add_attribute("buyer", sender).add_number("units", units).add_number("cost", cost),
    )
}

/// Sends the seller the proceeds collected and not yet withdrawn.
pub fn withdraw_earnings(store: &mut Store, info: &MessageInfo) -> (r: Result<Response, ContractError>)
    ensures
        outcome_is(r, *old(store), *final(store), spec_withdraw_earnings(old(store)@, info.sender@)),
{
    if !store.market_config.is_seller(&info.sender) {
        return Err(ContractError::Unauthorized {  });
    }
    let market_state = match store.market_state {
        Some(market) => market,
        None => { return Err(ContractError::Std(StdError::NotFound)); },
    };
    let total_withdrawn = match store.total_withdrawn {
        Some(withdrawn) => withdrawn,
        None => 0,
    };
    if market_state.total_spent < total_withdrawn {
        return Err(ContractError::Std(StdError::Overflow));
    }
    let to_withdraw = market_state.total_spent - total_withdrawn;
    store.total_withdrawn = Some(total_withdrawn + to_withdraw);
    let payout_msg = store.market_config.spend_asset.clone().into_send_message(to_withdraw, &info.sender);
    Ok(
        Response::new().add_message(payout_msg).add_attribute(
            "method",
            "withdraw_earnings".to_owned(),
        ).add_attribute("seller", info.sender.clone()).add_number("payout", to_withdraw),
    )
}

/// Answers a question.
pub fn query(store: &Store, msg: QueryMsg) -> (response: MarketStateResponse)
    ensures
        response.market == store.market_state,
        response.unix_start_time == store.unix_start,
        response.config == store.market_config,
{
    match msg {
        QueryMsg::GetMarketState {  } => query_market_state(store),
    }
}

/// The records of the sale as they are.
pub fn query_market_state(store: &Store) -> (response: MarketStateResponse)
    ensures
        response.market == store.market_state,
        response.unix_start_time == store.unix_start,
        response.config == store.market_config,
{
    MarketStateResponse {
        market: store.market_state,
        unix_start_time: store.unix_start,
        config: store.market_config.clone(),
    }
}

/// Answers the report of an order that was carried out: nothing follows from it.
pub fn reply() -> (response: Response)
    ensures
        response@ == ResponseView::new(),
{
    Response::new()
}

} // verus!

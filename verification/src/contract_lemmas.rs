//! What holds of the lifecycle of every sale.

use vstd::prelude::*;
use crate::contract::{
    spec_buy_units,
    spec_execute,
    spec_instantiate,
    spec_schedule_auction,
    spec_withdraw_earnings,
};
use crate::error::ContractError;
use crate::fungible::AssetView;
use crate::host::{Env, MessageInfo, ResponseView};
use crate::market::Market;
use crate::msg::{ExecuteMsg, InstantiateMsg};
use crate::state::StoreView;

verus! {

/// A sale that was set up has fit parameters and well-formed records, with nothing scheduled.
pub proof fn lemma_instantiate_well_formed(owner: Seq<char>, msg: InstantiateMsg)
    requires
        spec_instantiate(owner, msg) is Ok,
    ensures
        spec_instantiate(owner, msg)->Ok_0.0.wf(),
        spec_instantiate(owner, msg)->Ok_0.0.market_config.spec_validate() is Ok,
        spec_instantiate(owner, msg)->Ok_0.0.unix_start is None,
        spec_instantiate(owner, msg)->Ok_0.0.withdrawn() == 0,
{
}

/// No call makes the proceeds withdrawn exceed the proceeds collected, and
/// neither of the two ever falls.
pub proof fn lemma_execute_keeps_ledger(store: StoreView, env: Env, info: MessageInfo, msg: ExecuteMsg)
    requires
        store.wf(),
        spec_execute(store, env, info, msg) is Ok,
    ensures
        spec_execute(store, env, info, msg)->Ok_0.0.wf(),
        spec_execute(store, env, info, msg)->Ok_0.0.withdrawn() <= spec_execute(
            store,
            env,
            info,
            msg,
        )->Ok_0.0.spent(),
        store.withdrawn() <= spec_execute(store, env, info, msg)->Ok_0.0.withdrawn(),
        store.spent() <= spec_execute(store, env, info, msg)->Ok_0.0.spent(),
{
}

/// Right after a withdrawal all proceeds collected are withdrawn, and the
/// seller was sent what had not been withdrawn before.
pub proof fn lemma_withdraw_drains(store: StoreView, sender: Seq<char>)
    requires
        spec_withdraw_earnings(store, sender) is Ok,
    ensures
        ({
            let (after, response) = spec_withdraw_earnings(store, sender)->Ok_0;
            &&& after.withdrawn() == after.spent()
            &&& after.spent() == store.spent()
            &&& response.messages == seq![
                store.market_config.spend_asset.send_message(
                    (store.spent() - store.withdrawn()) as u128,
                    sender,
                ),
            ]
        }),
{
    let (after, response) = spec_withdraw_earnings(store, sender)->Ok_0;
    assert(response.messages =~= seq![
        store.market_config.spend_asset.send_message(
            (store.spent() - store.withdrawn()) as u128,
            sender,
        ),
    ]);
}

/// A withdrawal right after a withdrawal sends nothing and changes no record.
pub proof fn lemma_withdraw_again_sends_nothing(store: StoreView, sender: Seq<char>)
    requires
        spec_withdraw_earnings(store, sender) is Ok,
    ensures
        ({
            let after = spec_withdraw_earnings(store, sender)->Ok_0.0;
            &&& spec_withdraw_earnings(after, sender) is Ok
            &&& spec_withdraw_earnings(after, sender)->Ok_0.0 == after
            &&& spec_withdraw_earnings(after, sender)->Ok_0.1.messages == seq![
                store.market_config.spend_asset.send_message(0, sender),
            ]
        }),
{
    let after = spec_withdraw_earnings(store, sender)->Ok_0.0;
    assert(spec_withdraw_earnings(after, sender)->Ok_0.1.messages =~= seq![
        store.market_config.spend_asset.send_message(0, sender),
    ]);
}

/// Once the sale is scheduled, scheduling fails, whoever asks and for whatever time.
pub proof fn lemma_schedule_only_once(
    store: StoreView,
    env: Env,
    sender: Seq<char>,
    start: u64,
    later_env: Env,
    later_sender: Seq<char>,
    later_start: u64,
)
    requires
        spec_schedule_auction(store, env, sender, start) is Ok,
    ensures
        spec_schedule_auction(
            spec_schedule_auction(store, env, sender, start)->Ok_0.0,
            later_env,
            later_sender,
            later_start,
        ) is Err,
{
}

/// A call that schedules the sale is the last that does: every later call
/// that asks to schedule is rejected.
pub proof fn lemma_scheduling_call_only_once(
    store: StoreView,
    env: Env,
    info: MessageInfo,
    msg: ExecuteMsg,
    later_env: Env,
    later_info: MessageInfo,
    later_msg: ExecuteMsg,
)
    requires
        msg.spec_asks_to_schedule(),
        later_msg.spec_asks_to_schedule(),
        spec_execute(store, env, info, msg) is Ok,
    ensures
        spec_execute(store, env, info, msg)->Ok_0.0.unix_start is Some,
        spec_execute(spec_execute(store, env, info, msg)->Ok_0.0, later_env, later_info, later_msg) is Err,
{
}

/// No call that succeeds moves or removes the start time of a scheduled sale.
pub proof fn lemma_start_time_stays(store: StoreView, env: Env, info: MessageInfo, msg: ExecuteMsg)
    requires
        store.unix_start is Some,
        spec_execute(store, env, info, msg) is Ok,
    ensures
        spec_execute(store, env, info, msg)->Ok_0.0.unix_start == store.unix_start,
        !msg.spec_asks_to_schedule(),
{
}

/// A payment below the cost of the units asked for buys nothing: the
/// purchase is rejected, and for want of funds wherever the payment is in the
/// spend asset and the accounting stays in range.
pub proof fn lemma_underpaid_purchase_rejected(
    store: StoreView,
    env: Env,
    sender: Seq<char>,
    asset: AssetView,
    paid: u128,
    units: u128,
    market: Market,
    start: u64,
)
    requires
        store.unix_start == Some(start),
        store.market_state == Some(market),
        start <= env.block_time,
        market.spec_cost(units as int, env.block_time - start) is Ok,
        paid < market.spec_cost(units as int, env.block_time - start)->Ok_0,
    ensures
        spec_buy_units(store, env, sender, asset, paid, units) is Err,
        store.market_config.spend_asset == asset && market.spec_buy(
            units as int,
            env.block_time - start,
        ) is Ok ==> spec_buy_units(store, env, sender, asset, paid, units) == Err::<
            (StoreView, ResponseView),
            ContractError,
        >(ContractError::InsufficientFunds {  }),
{
}

/// A purchase adds the units and their cost to the accounting, and the buyer
/// is sent the units first and then what was paid beyond the cost.
pub proof fn lemma_purchase_accounts(
    store: StoreView,
    env: Env,
    sender: Seq<char>,
    asset: AssetView,
    paid: u128,
    units: u128,
)
    requires
        spec_buy_units(store, env, sender, asset, paid, units) is Ok,
    ensures
        ({
            let (after, response) = spec_buy_units(store, env, sender, asset, paid, units)->Ok_0;
            let before = store.market_state->Some_0;
            let market = after.market_state->Some_0;
            let cost = market.total_spent - before.total_spent;
            &&& store.market_state is Some && after.market_state is Some && store.unix_start is Some
            &&& before.spec_cost(units as int, env.block_time - store.unix_start->Some_0) == Ok::<
                int,
                crate::error::StdError,
            >(cost)
            &&& market.units_sold == before.units_sold + units
            &&& 0 <= cost <= paid
            &&& response.messages[0] == store.market_config.unit_asset.send_message(units, sender)
            &&& paid == cost ==> response.messages.len() == 1
            &&& paid > cost ==> response.messages.len() == 2 && response.messages[1]
                == store.market_config.spend_asset.send_message((paid - cost) as u128, sender)
        }),
{
    let (after, response) = spec_buy_units(store, env, sender, asset, paid, units)->Ok_0;
    let before = store.market_state->Some_0;
    let elapsed = env.block_time - store.unix_start->Some_0;
    before.lemma_cost_is_ceiling(units as int, elapsed);
}

/// Only a call that asks to schedule the sale reads what the sale holds of
/// the unit asset: every other call ends the same whatever the host answered.
pub proof fn lemma_balance_read_by_scheduling_only(
    store: StoreView,
    env: Env,
    other_env: Env,
    info: MessageInfo,
    msg: ExecuteMsg,
)
    requires
        !msg.spec_asks_to_schedule(),
        env.block_time == other_env.block_time,
    ensures
        spec_execute(store, env, info, msg) == spec_execute(store, other_env, info, msg),
{
}

} // verus!

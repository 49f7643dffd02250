//! The two kinds of fungible asset that a sale can trade: a native coin of
//! the chain, and a token kept by a contract.

use vstd::prelude::*;

verus! {

/// An asset as a message names it, before the host has confirmed it.
#[derive(Debug, PartialEq, Eq)]
pub enum FungibleAsset {
    /// A native coin.
    Native { denom: String },
    /// A token kept by the contract at `contract_addr`.
    Cw20 { contract_addr: String },
}

/// An asset that the host has confirmed.
#[derive(Debug, PartialEq, Eq)]
pub enum CheckedFungibleAsset {
    Native { denom: String },
    Cw20 { contract_addr: String },
}

/// An asset as a mathematical value.
pub enum AssetView {
    Native { denom: Seq<char> },
    Cw20 { contract_addr: Seq<char> },
}

/// The order to move an amount of an asset to a recipient.
#[derive(Debug, PartialEq, Eq)]
pub enum SendMessage {
    /// The bank sends native coin.
    Bank { to_address: String, denom: String, amount: u128 },
    /// The token contract transfers from the sale's balance.
    Cw20 { contract_addr: String, recipient: String, amount: u128 },
}

/// An order to move an asset, as a mathematical value.
pub enum SendMessageView {
    Bank { to_address: Seq<char>, denom: Seq<char>, amount: u128 },
    Cw20 { contract_addr: Seq<char>, recipient: Seq<char>, amount: u128 },
}

/// The question of how much of an asset an address holds.
#[derive(Debug, PartialEq, Eq)]
pub enum BalanceQuery {
    /// Asked of the bank.
    Bank { address: String, denom: String },
    /// Asked of the token contract.
    Cw20 { contract_addr: String, address: String },
}

/// A question for a balance, as a mathematical value.
pub enum BalanceQueryView {
    Bank { address: Seq<char>, denom: Seq<char> },
    Cw20 { contract_addr: Seq<char>, address: Seq<char> },
}

impl View for FungibleAsset {
    type V = AssetView;

    open spec fn view(&self) -> AssetView {
        match self {
            FungibleAsset::Native { denom } => AssetView::Native { denom: denom@ },
            FungibleAsset::Cw20 { contract_addr } => AssetView::Cw20 { contract_addr: contract_addr@ },
        }
    }
}

impl View for CheckedFungibleAsset {
    type V = AssetView;

    open spec fn view(&self) -> AssetView {
        match self {
            CheckedFungibleAsset::Native { denom } => AssetView::Native { denom: denom@ },
            CheckedFungibleAsset::Cw20 { contract_addr } => AssetView::Cw20 {
                contract_addr: contract_addr@,
            },
        }
    }
}

impl View for SendMessage {
    type V = SendMessageView;

    open spec fn view(&self) -> SendMessageView {
        match self {
            SendMessage::Bank { to_address, denom, amount } => SendMessageView::Bank {
                to_address: to_address@,
                denom: denom@,
                amount: *amount,
            },
            SendMessage::Cw20 { contract_addr, recipient, amount } => SendMessageView::Cw20 {
                contract_addr: contract_addr@,
                recipient: recipient@,
                amount: *amount,
            },
        }
    }
}

impl View for BalanceQuery {
    type V = BalanceQueryView;

    open spec fn view(&self) -> BalanceQueryView {
        match self {
            BalanceQuery::Bank { address, denom } => BalanceQueryView::Bank {
                address: address@,
                denom: denom@,
            },
            BalanceQuery::Cw20 { contract_addr, address } => BalanceQueryView::Cw20 {
                contract_addr: contract_addr@,
                address: address@,
            },
        }
    }
}

impl AssetView {
    /// The order that moves `amount` of the asset to `recipient`: a native
    /// coin is sent by the bank, a token is transferred by its contract.
    pub open spec fn send_message(self, amount: u128, recipient: Seq<char>) -> SendMessageView {
        match self {
            AssetView::Native { denom } => SendMessageView::Bank { to_address: recipient, denom, amount },
            AssetView::Cw20 { contract_addr } => SendMessageView::Cw20 {
                contract_addr,
                recipient,
                amount,
            },
        }
    }

    /// The question of how much of the asset `address` holds.
    pub open spec fn balance_query(self, address: Seq<char>) -> BalanceQueryView {
        match self {
            AssetView::Native { denom } => BalanceQueryView::Bank { address, denom },
            AssetView::Cw20 { contract_addr } => BalanceQueryView::Cw20 { contract_addr, address },
        }
    }
}

impl SendMessageView {
    /// The asset that the order moves.
    pub open spec fn asset(self) -> AssetView {
        match self {
            SendMessageView::Bank { denom, .. } => AssetView::Native { denom },
            SendMessageView::Cw20 { contract_addr, .. } => AssetView::Cw20 { contract_addr },
        }
    }

    /// The amount that the order moves.
    pub open spec fn amount(self) -> u128 {
        match self {
            SendMessageView::Bank { amount, .. } => amount,
            SendMessageView::Cw20 { amount, .. } => amount,
        }
    }

    /// The address that receives the asset.
    pub open spec fn recipient(self) -> Seq<char> {
        match self {
            SendMessageView::Bank { to_address, .. } => to_address,
            SendMessageView::Cw20 { recipient, .. } => recipient,
        }
    }
}

impl CheckedFungibleAsset {
    /// The order that moves `amount` of the asset to `recipient`.
    pub fn into_send_message(self, amount: u128, recipient: &String) -> (message: SendMessage)
        ensures
            message@ == self@.send_message(amount, recipient@),
    {
        match self {
            CheckedFungibleAsset::Native { denom } => SendMessage::Bank {
                to_address: recipient.clone(),
                denom,
                amount,
            },
            CheckedFungibleAsset::Cw20 { contract_addr } => SendMessage::Cw20 {
                contract_addr,
                recipient: recipient.clone(),
                amount,
            },
        }
    }

    /// The question to put to the host for how much of the asset `address` holds.
    pub fn query_balance(&self, address: &String) -> (query: BalanceQuery)
        ensures
            query@ == self@.balance_query(address@),
    {
        match self {
            CheckedFungibleAsset::Native { denom } => BalanceQuery::Bank {
                address: address.clone(),
                denom: denom.clone(),
            },
            CheckedFungibleAsset::Cw20 { contract_addr } => BalanceQuery::Cw20 {
                contract_addr: contract_addr.clone(),
                address: address.clone(),
            },
        }
    }

    /// Whether two assets are the same: of the same kind, with the same name.
    pub fn same_asset(&self, other: &CheckedFungibleAsset) -> (same: bool)
        ensures
            same == (self@ == other@),
    {
        match self {
            CheckedFungibleAsset::Native { denom } => match other {
                CheckedFungibleAsset::Native { denom: other_denom } => *denom == *other_denom,
                CheckedFungibleAsset::Cw20 { .. } => false,
            },
            CheckedFungibleAsset::Cw20 { contract_addr } => match other {
                CheckedFungibleAsset::Native { .. } => false,
                CheckedFungibleAsset::Cw20 { contract_addr: other_addr } => *contract_addr == *other_addr,
            },
        }
    }
}

impl Clone for CheckedFungibleAsset {
    fn clone(&self) -> (copy: CheckedFungibleAsset)
        ensures
            copy == *self,
    {
        match self {
            CheckedFungibleAsset::Native { denom } => CheckedFungibleAsset::Native {
                denom: denom.clone(),
            },
            CheckedFungibleAsset::Cw20 { contract_addr } => CheckedFungibleAsset::Cw20 {
                contract_addr: contract_addr.clone(),
            },
        }
    }
}

impl Clone for FungibleAsset {
    fn clone(&self) -> (copy: FungibleAsset)
        ensures
            copy == *self,
    {
        match self {
            FungibleAsset::Native { denom } => FungibleAsset::Native { denom: denom.clone() },
            FungibleAsset::Cw20 { contract_addr } => FungibleAsset::Cw20 {
                contract_addr: contract_addr.clone(),
            },
        }
    }
}

impl FungibleAsset {
    /// The asset once the host has confirmed it: of the same kind, with the same name.
    pub fn into_checked(self) -> (checked: CheckedFungibleAsset)
        ensures
            checked@ == self@,
    {
        match self {
            FungibleAsset::Native { denom } => CheckedFungibleAsset::Native { denom },
            FungibleAsset::Cw20 { contract_addr } => CheckedFungibleAsset::Cw20 { contract_addr },
        }
    }
}

} // verus!

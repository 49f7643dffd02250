//! What the host hands to a call and what a call hands back.
//!
//! A call is given the time of the block and who called with which coins. It
//! answers with a [`Response`]: the orders to move assets, which the host
//! carries out once the call has returned, and attributes that describe what
//! was done.

use vstd::prelude::*;
use crate::error::{PaymentError, StdError};
use crate::fungible::{SendMessage, SendMessageView};

verus! {

/// An amount of a native coin.
#[derive(Debug, PartialEq, Eq)]
pub struct Coin {
    pub denom: String,
    pub amount: u128,
}

impl Clone for Coin {
    fn clone(&self) -> (copy: Coin)
        ensures
            copy == *self,
    {
        Coin { denom: self.denom.clone(), amount: self.amount }
    }
}

/// Who called, and the coins sent along.
#[derive(Debug, PartialEq, Eq)]
pub struct MessageInfo {
    pub sender: String,
    pub funds: Vec<Coin>,
}

/// The world as a call finds it.
#[derive(Clone, Copy, Debug, PartialEq, Eq)]
pub struct Env {
    /// The time of the block, in seconds.
    pub block_time: u64,
    /// The host's answer to how much of the unit asset the sale holds.
    pub unit_balance: Result<u128, StdError>,
}

/// What an attribute says: a text or a number.
#[derive(Debug, PartialEq, Eq)]
pub enum AttributeValue {
    Text(String),
    Number(u128),
}

/// An attribute value as a mathematical value.
pub enum AttributeValueView {
    Text(Seq<char>),
    Number(u128),
}

/// A key and what is said under it.
#[derive(Debug, PartialEq, Eq)]
pub struct Attribute {
    pub key: String,
    pub value: AttributeValue,
}

/// An attribute as a mathematical value.
pub struct AttributeView {
    pub key: Seq<char>,
    pub value: AttributeValueView,
}

/// The answer of a call that succeeded.
#[derive(Debug, PartialEq, Eq)]
pub struct Response {
    /// The orders to move assets, in the order in which the host carries them out.
    pub messages: Vec<SendMessage>,
    pub attributes: Vec<Attribute>,
}

/// The answer of a call as a mathematical value.
pub struct ResponseView {
    pub messages: Seq<SendMessageView>,
    pub attributes: Seq<AttributeView>,
}

impl View for AttributeValue {
    type V = AttributeValueView;

    open spec fn view(&self) -> AttributeValueView {
        match self {
            AttributeValue::Text(text) => AttributeValueView::Text(text@),
            AttributeValue::Number(number) => AttributeValueView::Number(*number),
        }
    }
}

impl View for Attribute {
    type V = AttributeView;

    open spec fn view(&self) -> AttributeView {
        AttributeView { key: self.key@, value: self.value@ }
    }
}

impl View for Response {
    type V = ResponseView;

    open spec fn view(&self) -> ResponseView {
        ResponseView {
            messages: self.messages@.map_values(|message: SendMessage| message@),
            attributes: self.attributes@.map_values(|attribute: Attribute| attribute@),
        }
    }
}

impl ResponseView {
    /// The answer that orders nothing and says nothing.
    pub open spec fn new() -> ResponseView {
        ResponseView { messages: Seq::empty(), attributes: Seq::empty() }
    }

    /// The answer with one more order, after those it has.
    pub open spec fn add_message(self, message: SendMessageView) -> ResponseView {
        ResponseView { messages: self.messages.push(message), ..self }
    }

    /// The answer with more orders, after those it has.
    pub open spec fn add_messages(self, messages: Seq<SendMessageView>) -> ResponseView {
        ResponseView { messages: self.messages + messages, ..self }
    }

    /// The answer with one more attribute that holds a text.
    pub open spec fn add_text(self, key: Seq<char>, text: Seq<char>) -> ResponseView {
        ResponseView {
            attributes: self.attributes.push(
                AttributeView { key, value: AttributeValueView::Text(text) },
            ),
            ..self
        }
    }

    /// The answer with one more attribute that holds a number.
    pub open spec fn add_number(self, key: Seq<char>, number: u128) -> ResponseView {
        ResponseView {
            attributes: self.attributes.push(
                AttributeView { key, value: AttributeValueView::Number(number) },
            ),
            ..self
        }
    }
}

impl Response {
    /// The answer that orders nothing and says nothing.
    pub fn new() -> (response: Response)
        ensures
            response@ == ResponseView::new(),
    {
        let response = Response { messages: Vec::new(), attributes: Vec::new() };
        assert(response@.messages =~= Seq::empty());
        assert(response@.attributes =~= Seq::empty());
        response
    }

    /// Adds an order after those that the answer has.
    pub fn add_message(self, message: SendMessage) -> (response: Response)
        ensures
            response@ == self@.add_message(message@),
    {
        let mut response = self;
        let ghost before = response@;
        response.messages.push(message);
        assert(response@.messages =~= before.messages.push(message@));
        response
    }

    /// Adds orders after those that the answer has, in their order.
    pub fn add_messages(self, messages: Vec<SendMessage>) -> (response: Response)
        ensures
            response@ == self@.add_messages(messages@.map_values(|message: SendMessage| message@)),
    {
        let mut response = self;
        let mut messages = messages;
        let ghost before = response@;
        let ghost added = messages@;
        response.messages.append(&mut messages);
        assert(response@.messages =~= before.messages + added.map_values(
            |message: SendMessage| message@,
        ));
        response
    }

    /// Adds an attribute that holds a text.
    pub fn add_attribute(self, key: &str, text: String) -> (response: Response)
        ensures
            response@ == self@.add_text(key@, text@),
    {
        let mut response = self;
        let ghost before = response@;
        let attribute = Attribute { key: key.to_owned(), value: AttributeValue::Text(text) };
        response.attributes.push(attribute);
        assert(response@.attributes =~= before.attributes.push(attribute@));
        response
    }

    /// Adds an attribute that holds a number.
    pub fn add_number(self, key: &str, number: u128) -> (response: Response)
        ensures
            response@ == self@.add_number(key@, number),
    {
        let mut response = self;
        let ghost before = response@;
        let attribute = Attribute { key: key.to_owned(), value: AttributeValue::Number(number) };
        response.attributes.push(attribute);
        assert(response@.attributes =~= before.attributes.push(attribute@));
        response
    }
}

/// The one coin among the funds, and why there is none: no coin or a coin of
/// amount zero, or more than one coin.
pub open spec fn spec_one_coin(funds: Seq<Coin>) -> Result<Coin, PaymentError> {
    if funds.len() == 0 {
        Err(PaymentError::NoFunds)
    } else if funds.len() == 1 {
        if funds[0].amount == 0 {
            Err(PaymentError::NoFunds)
        } else {
            Ok(funds[0])
        }
    } else {
        Err(PaymentError::MultipleDenoms)
    }
}

/// `cw_utils::one_coin`: the only coin sent, whatever its denomination.
/// Without a coin, or with one of amount zero, it fails for want of funds;
/// with two or more it fails for too many denominations.
#[verifier::external_body]
fn one_coin_sent(sender: &String, funds: &Vec<Coin>) -> (r: Result<Coin, PaymentError>)
    ensures
        match spec_one_coin(funds@) {
            Ok(coin) => r is Ok && r->Ok_0.denom@ == coin.denom@ && r->Ok_0.amount == coin.amount,
            Err(e) => r == Err::<Coin, PaymentError>(e),
        },
{
    let funds = funds.iter().map(|c| cosmwasm_std::coin(c.amount, c.denom.clone())).collect();
    let info = cosmwasm_std::MessageInfo { sender: cosmwasm_std::Addr::unchecked(sender.clone()), funds };
    match cw_utils::one_coin(&info) {
        Ok(coin) => Ok(Coin { denom: coin.denom, amount: coin.amount.u128() }),
        Err(cw_utils::PaymentError::MissingDenom(_)) => Err(PaymentError::MissingDenom),
        Err(cw_utils::PaymentError::ExtraDenom(_)) => Err(PaymentError::ExtraDenom),
        Err(cw_utils::PaymentError::MultipleDenoms {}) => Err(PaymentError::MultipleDenoms),
        Err(cw_utils::PaymentError::NoFunds {}) => Err(PaymentError::NoFunds),
        Err(cw_utils::PaymentError::NonPayable {}) => Err(PaymentError::NonPayable),
    }
}

impl MessageInfo {
    /// The one coin that was sent with the call.
    pub fn one_coin(&self) -> (r: Result<Coin, PaymentError>)
        ensures
            match spec_one_coin(self.funds@) {
                Ok(coin) => r is Ok && r->Ok_0.denom@ == coin.denom@ && r->Ok_0.amount == coin.amount,
                Err(e) => r == Err::<Coin, PaymentError>(e),
            },
    {
        one_coin_sent(&self.sender, &self.funds)
    }
}

} // verus!

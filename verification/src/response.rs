//! What an operation of the controller hands back to the host: attributes
//! for people to read, and instructions for the ledger to carry out.

use vstd::prelude::*;
use crate::coin::{Coin, CoinView, coins_view};

verus! {

/// A key and a value that describe what an operation did.
#[derive(Debug, PartialEq, Eq)]
pub struct Attribute {
    pub key: String,
    pub value: String,
}

/// What an [`Attribute`] stands for.
pub struct AttributeView {
    pub key: Seq<char>,
    pub value: Seq<char>,
}

impl View for Attribute {
    type V = AttributeView;

    open spec fn view(&self) -> AttributeView {
        AttributeView { key: self.key@, value: self.value@ }
    }
}

/// An instruction to the host ledger, to be carried out on the controller's
/// own balance once the operation that returned it has been committed.
#[derive(Debug, PartialEq, Eq)]
pub enum BankMsg {
    /// Transfer `amount` to `to_address`.
    Send { to_address: String, amount: Vec<Coin> },
    /// Destroy `amount`.
    Burn { amount: Vec<Coin> },
}

/// What a [`BankMsg`] stands for.
pub enum BankMsgView {
    Send { to_address: Seq<char>, amount: Seq<CoinView> },
    Burn { amount: Seq<CoinView> },
}

impl View for BankMsg {
    type V = BankMsgView;

    open spec fn view(&self) -> BankMsgView {
        match self {
            BankMsg::Send { to_address, amount } => BankMsgView::Send {
                to_address: to_address@,
                amount: coins_view(amount@),
            },
            BankMsg::Burn { amount } => BankMsgView::Burn { amount: coins_view(amount@) },
        }
    }
}

/// The acknowledgment of a successful operation.
#[derive(Debug, PartialEq, Eq)]
pub struct Response {
    /// The instructions for the ledger, in the order in which it is to carry
    /// them out.
    pub messages: Vec<BankMsg>,
    /// The attributes, in the order in which they were added.
    pub attributes: Vec<Attribute>,
}

/// What a [`Response`] stands for.
pub struct ResponseView {
    pub messages: Seq<BankMsgView>,
    pub attributes: Seq<AttributeView>,
}

/// What a list of attributes stands for, one by one.
pub open spec fn attributes_view(attributes: Seq<Attribute>) -> Seq<AttributeView> {
    attributes.map_values(|attribute: Attribute| attribute@)
}

/// What a list of instructions stands for, one by one.
pub open spec fn messages_view(messages: Seq<BankMsg>) -> Seq<BankMsgView> {
    messages.map_values(|message: BankMsg| message@)
}

impl View for Response {
    type V = ResponseView;

    open spec fn view(&self) -> ResponseView {
        ResponseView {
            messages: messages_view(self.messages@),
            attributes: attributes_view(self.attributes@),
        }
    }
}

impl Response {
    /// A response without attributes and without instructions.
    pub fn new() -> (response: Response)
        ensures
            response@.messages == Seq::<BankMsgView>::empty(),
            response@.attributes == Seq::<AttributeView>::empty(),
    {
        let response = Response { messages: Vec::new(), attributes: Vec::new() };
        assert(response@.messages =~= Seq::<BankMsgView>::empty());
        assert(response@.attributes =~= Seq::<AttributeView>::empty());
        response
    }

    /// This response with one more attribute at the end.
    pub fn add_attribute(self, key: &str, value: &str) -> (response: Response)
        ensures
            response@.messages == self@.messages,
            response@.attributes == self@.attributes.push(
                AttributeView { key: key@, value: value@ },
            ),
    {
        let mut response = self;
        response.attributes.push(Attribute { key: key.to_owned(), value: value.to_owned() });
        assert(response@.attributes =~= self@.attributes.push(
            AttributeView { key: key@, value: value@ },
        ));
        response
    }

    /// This response with the instructions of `messages` added at the end, in
    /// their order.
    pub fn add_messages(self, messages: Vec<BankMsg>) -> (response: Response)
        ensures
            response@.attributes == self@.attributes,
            response@.messages == self@.messages + messages_view(messages@),
    {
        let mut response = self;
        let mut messages = messages;
        let ghost added = messages@;
        response.messages.append(&mut messages);
        assert(response@.messages =~= self@.messages + messages_view(added));
        response
    }
}

} // verus!

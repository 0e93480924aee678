//! What the host chain hands to the auction with a call, and what the
//! auction asks of the host in return.
//!
//! The auction never moves funds itself. It answers a call with a
//! [`Response`] that may carry a [`BankMsg`], and the host carries it out.

use vstd::prelude::*;

verus! {

/// An amount of one denomination.
#[derive(Debug, PartialEq)]
pub struct Coin {
    pub denom: String,
    pub amount: u128,
}

pub struct CoinView {
    pub denom: Seq<char>,
    pub amount: nat,
}

impl View for Coin {
    type V = CoinView;

    open spec fn view(&self) -> CoinView {
        CoinView { denom: self.denom@, amount: self.amount as nat }
    }
}

impl Clone for Coin {
    fn clone(&self) -> (copy: Coin)
        ensures
            copy == *self,
    {
        Coin { denom: self.denom.clone(), amount: self.amount }
    }
}

/// The views of a list of coins, in order.
pub open spec fn coins_view(coins: Seq<Coin>) -> Seq<CoinView> {
    coins.map_values(|coin: Coin| coin@)
}

impl Coin {
    pub fn new(amount: u128, denom: &str) -> (coin: Coin)
        ensures
            coin@ == (CoinView { denom: denom@, amount: amount as nat }),
    {
        Coin { denom: denom.to_owned(), amount }
    }
}

/// A list that holds one coin.
pub fn coins(amount: u128, denom: &str) -> (list: Vec<Coin>)
    ensures
        coins_view(list@) == seq![CoinView { denom: denom@, amount: amount as nat }],
{
    let mut list: Vec<Coin> = Vec::new();
    list.push(Coin::new(amount, denom));
    assert(coins_view(list@) =~= seq![CoinView { denom: denom@, amount: amount as nat }]);
    list
}

/// Who made a call, and the funds that came with it.
#[derive(Clone, Debug, PartialEq)]
pub struct MessageInfo {
    pub sender: String,
    pub funds: Vec<Coin>,
}

pub struct MessageInfoView {
    pub sender: Seq<char>,
    pub funds: Seq<CoinView>,
}

impl View for MessageInfo {
    type V = MessageInfoView;

    open spec fn view(&self) -> MessageInfoView {
        MessageInfoView { sender: self.sender@, funds: coins_view(self.funds@) }
    }
}

/// A request to the host's bank.
#[derive(Clone, Debug, PartialEq)]
pub enum BankMsg {
    /// Pay `amount` out of the auction's escrow to `to_address`.
    Send { to_address: String, amount: Vec<Coin> },
}

pub enum BankMsgView {
    Send { to_address: Seq<char>, amount: Seq<CoinView> },
}

impl View for BankMsg {
    type V = BankMsgView;

    open spec fn view(&self) -> BankMsgView {
        match self {
            BankMsg::Send { to_address, amount } => BankMsgView::Send {
                to_address: to_address@,
                amount: coins_view(amount@),
            },
        }
    }
}

/// A key and a value that describe what a call did.
#[derive(Clone, Debug, PartialEq)]
pub struct Attribute {
    pub key: String,
    pub value: String,
}

pub struct AttributeView {
    pub key: Seq<char>,
    pub value: Seq<char>,
}

impl View for Attribute {
    type V = AttributeView;

    open spec fn view(&self) -> AttributeView {
        AttributeView { key: self.key@, value: self.value@ }
    }
}

/// The answer to a call that succeeded.
#[derive(Clone, Debug, PartialEq)]
pub struct Response {
    pub messages: Vec<BankMsg>,
    pub attributes: Vec<Attribute>,
}

pub struct ResponseView {
    pub messages: Seq<BankMsgView>,
    pub attributes: Seq<AttributeView>,
}

impl View for Response {
    type V = ResponseView;

    open spec fn view(&self) -> ResponseView {
        ResponseView {
            messages: self.messages@.map_values(|msg: BankMsg| msg@),
            attributes: self.attributes@.map_values(|attr: Attribute| attr@),
        }
    }
}

impl Response {
    /// The answer that asks nothing of the host and says nothing.
    pub fn new() -> (resp: Response)
        ensures
            resp@ == (ResponseView { messages: Seq::empty(), attributes: Seq::empty() }),
    {
        let resp = Response { messages: Vec::new(), attributes: Vec::new() };
        assert(resp@.messages =~= Seq::empty());
        assert(resp@.attributes =~= Seq::empty());
        resp
    }

    /// This answer with one more request to the bank.
    pub fn add_message(self, msg: BankMsg) -> (resp: Response)
        ensures
            resp@ == (ResponseView { messages: self@.messages.push(msg@), ..self@ }),
    {
        let mut resp = self;
        resp.messages.push(msg);
        assert(resp@.messages =~= self@.messages.push(msg@));
        resp
    }

    /// This answer with one more attribute.
    pub fn add_attribute(self, key: &str, value: &str) -> (resp: Response)
        ensures
            resp@ == (ResponseView {
                attributes: self@.attributes.push(AttributeView { key: key@, value: value@ }),
                ..self@
            }),
    {
        let mut resp = self;
        resp.attributes.push(Attribute { key: key.to_owned(), value: value.to_owned() });
        assert(resp@.attributes =~= self@.attributes.push(
            AttributeView { key: key@, value: value@ },
        ));
        resp
    }
}

} // verus!

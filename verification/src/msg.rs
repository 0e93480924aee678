//! The calls that the auction takes and the answers to its queries.

use crate::host::{Coin, CoinView};
use vstd::prelude::*;

verus! {

/// Opens an auction.
#[derive(Clone, Debug, PartialEq)]
pub struct InstantiateMsg {
    /// What is sold.
    pub commodity: String,
    /// Who owns the auction. Without it, the caller does.
    pub owner: Option<String>,
    /// The percentage withheld from what a losing bidder takes back.
    pub commision: u64,
}

/// The view of an address that may be missing.
pub open spec fn addr_view(addr: Option<String>) -> Option<Seq<char>> {
    match addr {
        Some(a) => Some(a@),
        None => None,
    }
}

pub struct InstantiateMsgView {
    pub commodity: Seq<char>,
    pub owner: Option<Seq<char>>,
    pub commision: nat,
}

impl View for InstantiateMsg {
    type V = InstantiateMsgView;

    open spec fn view(&self) -> InstantiateMsgView {
        InstantiateMsgView {
            commodity: self.commodity@,
            owner: addr_view(self.owner),
            commision: self.commision as nat,
        }
    }
}

/// A call that may change the auction.
#[derive(Clone, Debug, PartialEq)]
pub enum ExecuteMsg {
    /// Deposit the attached funds on top of the caller's earlier bids.
    Bid {},
    /// End the bidding and pay the highest bid to the owner.
    Close {},
    /// Take a losing bid back, less the commission, to `receiver` or, without
    /// one, to the caller.
    Retract { receiver: Option<String> },
}

pub enum ExecuteMsgView {
    Bid,
    Close,
    Retract { receiver: Option<Seq<char>> },
}

impl View for ExecuteMsg {
    type V = ExecuteMsgView;

    open spec fn view(&self) -> ExecuteMsgView {
        match self {
            ExecuteMsg::Bid {  } => ExecuteMsgView::Bid,
            ExecuteMsg::Close {  } => ExecuteMsgView::Close,
            ExecuteMsg::Retract { receiver } => ExecuteMsgView::Retract {
                receiver: addr_view(*receiver),
            },
        }
    }
}

/// A question about the auction.
#[derive(Clone, Copy, Debug, PartialEq, Eq)]
pub enum QueryMsg {
    HighestBid {},
    Commision {},
    BiddingState {},
    Winner {},
}

/// The highest bid so far.
#[derive(Clone, Debug, PartialEq)]
pub struct HBidResp {
    pub value: Coin,
}

impl View for HBidResp {
    type V = CoinView;

    open spec fn view(&self) -> CoinView {
        self.value@
    }
}

/// The commission, in percent.
#[derive(Clone, Copy, Debug, PartialEq, Eq)]
pub struct CommResp {
    pub value: u64,
}

/// Whether bids are still taken.
#[derive(Clone, Copy, Debug, PartialEq, Eq)]
pub struct BidStateResp {
    pub value: bool,
}

/// The address that won the auction.
#[derive(Clone, Debug, PartialEq)]
pub struct WinnerResp {
    pub value: String,
}

impl View for WinnerResp {
    type V = Seq<char>;

    open spec fn view(&self) -> Seq<char> {
        self.value@
    }
}

/// The answer to a [`QueryMsg`], one variant for each question.
#[derive(Clone, Debug, PartialEq)]
pub enum QueryResp {
    HighestBid(HBidResp),
    Commision(CommResp),
    BiddingState(BidStateResp),
    Winner(WinnerResp),
}

} // verus!

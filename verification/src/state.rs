//! What the auction remembers between calls.

use crate::host::{Coin, CoinView};
use crate::ledger::Ledger;
use crate::msg::addr_view;
use vstd::prelude::*;

verus! {

/// A bid: who leads, and with how much in all.
#[derive(Clone, Debug, PartialEq)]
pub struct Bid {
    pub addr: Option<String>,
    pub bid: Coin,
}

pub struct BidView {
    pub addr: Option<Seq<char>>,
    pub bid: CoinView,
}

impl View for Bid {
    type V = BidView;

    open spec fn view(&self) -> BidView {
        BidView { addr: addr_view(self.addr), bid: self.bid@ }
    }
}

/// The whole state of one auction.
#[derive(Clone, Debug, PartialEq)]
pub struct Auction {
    /// Who may close the auction. Never changes.
    pub owner: String,
    /// The leading bidder and that bidder's total.
    pub highest_bid: Bid,
    /// For each bidder, the sum of all the bidder's deposits.
    pub total_bids: Ledger,
    /// Whether bids are still taken.
    pub bidding: bool,
    /// Who won. Known once the auction is closed.
    pub winner: Option<String>,
    /// The percentage withheld from what a losing bidder takes back.
    pub commision: u64,
}

pub struct AuctionView {
    pub owner: Seq<char>,
    pub highest_bid: BidView,
    pub total_bids: Map<Seq<char>, nat>,
    pub bidding: bool,
    pub winner: Option<Seq<char>>,
    pub commision: nat,
}

impl View for Auction {
    type V = AuctionView;

    open spec fn view(&self) -> AuctionView {
        AuctionView {
            owner: self.owner@,
            highest_bid: self.highest_bid@,
            total_bids: self.total_bids@,
            bidding: self.bidding,
            winner: addr_view(self.winner),
            commision: self.commision as nat,
        }
    }
}

} // verus!

//! Opening an auction. The calls on an open auction are in [`exec`], the
//! questions about it in [`query`].

use crate::host::{Coin, MessageInfo};
use crate::ledger::Ledger;
use crate::model::opened;
use crate::msg::InstantiateMsg;
use crate::state::{Auction, Bid};
use vstd::prelude::*;

pub mod exec;
pub mod query;

verus! {

/// The one denomination in which bids are made and paid.
pub const ATOM: &'static str = "atom";

/// Opens an auction for the owner that `msg` names or, if it names none, for
/// the caller. Nobody has bid yet, and the commission is stored as given.
pub fn instantiate(info: MessageInfo, msg: InstantiateMsg) -> (state: Auction)
    ensures
        state@ == opened(info@, msg@),
        state@.inv(),
{
    let owner = match msg.owner {
        Some(owner) => owner,
        None => info.sender,
    };
    Auction {
        owner,
        highest_bid: Bid { addr: None, bid: Coin::new(0, ATOM) },
        total_bids: Ledger::new(),
        bidding: true,
        winner: None,
        commision: msg.commision,
    }
}

} // verus!

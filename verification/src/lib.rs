//! A sealed-ascending auction for a single asset, with verified accounting.
//!
//! Bidders deposit funds, and each bidder's deposits add up. Whoever's total
//! is highest leads. The owner closes the auction and is paid the highest
//! bid; every other bidder may then take the deposits back, less a
//! commission.
//!
//! The auction keeps its state in an [`state::Auction`] and moves no funds
//! itself: it answers each call with a [`host::Response`] for the host to
//! carry out. What each call does is defined in [`model`], and what holds of
//! every auction is proved in [`invariants`].

use crate::contract::exec::{bid, close, retract};
use crate::contract::query::{biddstate, comm, hbid, winner};
use crate::contract::ATOM;
use crate::error::{ContractError, ContractErrorView};
use crate::host::{MessageInfo, Response};
use crate::model::{opened, Call};
use crate::msg::{ExecuteMsg, InstantiateMsg, QueryMsg, QueryResp};
use crate::state::Auction;
use vstd::prelude::*;

pub mod contract;
pub mod decimal;
pub mod error;
pub mod host;
pub mod invariants;
pub mod ledger;
pub mod model;
pub mod msg;
pub mod state;

verus! {

/// Opens an auction. See [`contract::instantiate`].
pub fn instantiate(info: MessageInfo, msg: InstantiateMsg) -> (state: Auction)
    ensures
        state@ == opened(info@, msg@),
        state@.inv(),
{
    contract::instantiate(info, msg)
}

/// Whether [`execute`] can judge a call. It cannot judge a bid of somebody
/// other than the owner that comes without a coin or with several, or that
/// it would have to weigh but that lifts the bidder's total beyond 128 bits,
/// nor a retraction that it would have to pay at a commission above a
/// hundred percent.
pub fn admits(state: &Auction, info: &MessageInfo, msg: &ExecuteMsg) -> (ok: bool)
    ensures
        ok == state@.admits(Call { info: info@, msg: msg@ }),
{
    match msg {
        ExecuteMsg::Bid {  } => {
            if info.sender == state.owner {
                return true;
            }
            if info.funds.len() != 1 {
                return false;
            }
            if info.funds[0].denom != ATOM.to_owned() || !state.bidding {
                return true;
            }
            let prev_bids: u128 = match state.total_bids.get(&info.sender) {
                Some(amount) => amount,
                None => 0,
            };
            info.funds[0].amount <= u128::MAX - prev_bids
        },
        ExecuteMsg::Close {  } => true,
        ExecuteMsg::Retract { receiver } => {
            if info.sender == state.owner || state.bidding {
                return true;
            }
            let is_winner = match &state.winner {
                Some(winner) => info.sender == *winner,
                None => false,
            };
            is_winner || state.total_bids.get(&info.sender).is_none() || state.commision <= 100
        },
    }
}

/// Carries out one call on the auction, or refuses it and changes nothing.
pub fn execute(state: &mut Auction, info: MessageInfo, msg: ExecuteMsg) -> (res: Result<
    Response,
    ContractError,
>)
    requires
        old(state)@.admits(Call { info: info@, msg: msg@ }),
    ensures
        final(state)@ == old(state)@.after(Call { info: info@, msg: msg@ }),
        old(state)@.inv() ==> final(state)@.inv(),
        match res {
            Ok(resp) => old(state)@.refusal(Call { info: info@, msg: msg@ }) is None && resp@
                == old(state)@.response(Call { info: info@, msg: msg@ }),
            Err(e) => old(state)@.refusal(Call { info: info@, msg: msg@ }) == Some(e@),
        },
{
    match msg {
        ExecuteMsg::Bid {  } => bid(state, info),
        ExecuteMsg::Close {  } => close(state, info),
        ExecuteMsg::Retract { receiver } => retract(state, info, receiver),
    }
}

/// Answers one question about the auction.
pub fn query(state: &Auction, msg: QueryMsg) -> (res: Result<QueryResp, ContractError>)
    ensures
        match msg {
            QueryMsg::HighestBid {  } => res matches Ok(QueryResp::HighestBid(resp)) && resp@
                == state@.highest_bid.bid,
            QueryMsg::Commision {  } => res matches Ok(QueryResp::Commision(resp)) && resp.value
                == state.commision,
            QueryMsg::BiddingState {  } => res matches Ok(QueryResp::BiddingState(resp))
                && resp.value == state.bidding,
            QueryMsg::Winner {  } => match state@.winner {
                Some(who) => res matches Ok(QueryResp::Winner(resp)) && resp@ == who,
                None => res matches Err(e) && e@ == ContractErrorView::UndecidedError,
            },
        },
{
    match msg {
        QueryMsg::HighestBid {  } => Ok(QueryResp::HighestBid(hbid(state))),
        QueryMsg::Commision {  } => Ok(QueryResp::Commision(comm(state))),
        QueryMsg::BiddingState {  } => Ok(QueryResp::BiddingState(biddstate(state))),
        QueryMsg::Winner {  } => match winner(state) {
            Ok(resp) => Ok(QueryResp::Winner(resp)),
            Err(e) => Err(e),
        },
    }
}

} // verus!

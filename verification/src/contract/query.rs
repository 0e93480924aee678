//! Questions about an auction. None of them changes it.

use crate::error::{ContractError, ContractErrorView};
use crate::msg::{BidStateResp, CommResp, HBidResp, WinnerResp};
use crate::state::Auction;
use vstd::prelude::*;

verus! {

/// The highest bid so far: zero while nobody has bid.
pub fn hbid(state: &Auction) -> (resp: HBidResp)
    ensures
        resp@ == state@.highest_bid.bid,
{
    HBidResp { value: state.highest_bid.bid.clone() }
}

/// The commission, in percent.
pub fn comm(state: &Auction) -> (resp: CommResp)
    ensures
        resp.value == state.commision,
{
    CommResp { value: state.commision }
}

/// Whether bids are still taken.
pub fn biddstate(state: &Auction) -> (resp: BidStateResp)
    ensures
        resp.value == state.bidding,
{
    BidStateResp { value: state.bidding }
}

/// Who won the auction. There is no answer before the auction is closed.
pub fn winner(state: &Auction) -> (res: Result<WinnerResp, ContractError>)
    ensures
        match res {
            Ok(resp) => state@.winner == Some(resp@),
            Err(e) => state@.winner is None && e@ == ContractErrorView::UndecidedError,
        },
{
    match &state.winner {
        Some(winner) => Ok(WinnerResp { value: winner.clone() }),
        None => Err(ContractError::UndecidedError {  }),
    }
}

} // verus!

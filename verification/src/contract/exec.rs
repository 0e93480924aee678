//! The calls that bidders and the owner make on an auction.

use crate::contract::ATOM;
use crate::decimal::refund;
use crate::error::ContractError;
use crate::host::{coins, BankMsg, Coin, MessageInfo, Response};
use crate::model::bid_response;
use crate::msg::addr_view;
use crate::state::{Auction, Bid};
use vstd::prelude::*;

verus! {

/// Adds the attached coin to what the caller has bid before. If that total
/// exceeds the highest bid, the caller takes the lead with it; otherwise the
/// bid is refused and nothing changes.
///
/// A bid that is not the owner's comes with exactly one coin, and the
/// bidder's total must fit in 128 bits.
pub fn bid(state: &mut Auction, info: MessageInfo) -> (res: Result<Response, ContractError>)
    requires
        old(state)@.admits_bid(info@),
    ensures
        final(state)@ == old(state)@.after_bid(info@),
        old(state)@.inv() ==> final(state)@.inv(),
        match res {
            Ok(resp) => old(state)@.bid_refusal(info@) is None && resp@ == bid_response(
                info@.sender,
            ),
            Err(e) => old(state)@.bid_refusal(info@) == Some(e@),
        },
{
    // owner cannot send a bid
    if info.sender == state.owner {
        return Err(ContractError::BidError {  });
    }
    // check if proper coin is sent
    let current_funds = &info.funds[0];
    if current_funds.denom != ATOM.to_owned() {
        return Err(ContractError::DenomError {  });
    }
    if !state.bidding {
        return Err(ContractError::BidClosedError {  });
    }
    let prev_bids: u128 = match state.total_bids.get(&info.sender) {
        Some(amount) => amount,
        None => 0,
    };
    let total_funds: u128 = prev_bids + current_funds.amount;

    // check if total bids (previous funds + current funds) are higher than highest bid
    if total_funds > state.highest_bid.bid.amount {
        state.highest_bid =
        Bid { addr: Some(info.sender.clone()), bid: Coin::new(total_funds, ATOM) };
        state.total_bids.set(info.sender.clone(), total_funds);

        let res = Response::new().add_attribute("action", "bid").add_attribute(
            "bidder",
            info.sender.as_str(),
        );
        proof {
            let said = bid_response(info@.sender);
            assert(res@.messages =~= said.messages);
            assert(res@.attributes =~= said.attributes);
        }
        Ok(res)
    } else {
        Err(ContractError::AmountError {  })
    }
}

/// Ends the bidding. Only the owner may do so, once, and only after somebody
/// has bid. The leader becomes the winner, and the answer asks the bank to
/// pay the highest bid to the owner.
pub fn close(state: &mut Auction, info: MessageInfo) -> (res: Result<Response, ContractError>)
    ensures
        final(state)@ == old(state)@.after_close(info@.sender),
        old(state)@.inv() ==> final(state)@.inv(),
        match res {
            Ok(resp) => old(state)@.close_refusal(info@.sender) is None && resp@ == old(
                state,
            )@.close_response(info@.sender),
            Err(e) => old(state)@.close_refusal(info@.sender) == Some(e@),
        },
{
    if info.sender != state.owner {
        return Err(ContractError::Unauthorised { owner: state.owner.clone() });
    }
    if !state.bidding {
        return Err(ContractError::BidClosedError {  });
    }
    let winner = match &state.highest_bid.addr {
        Some(leader) => leader.clone(),
        None => {
            return Err(ContractError::UnexpectedError {  });
        },
    };
    let funds = coins(state.highest_bid.bid.amount, ATOM);
    let bank_msg = BankMsg::Send { to_address: state.owner.clone(), amount: funds };

    state.bidding = false;
    state.winner = Some(winner);
    let resp = Response::new().add_message(bank_msg).add_attribute(
        "action",
        "close",
    ).add_attribute("sender", info.sender.as_str());
    proof {
        let said = old(state)@.close_response(info@.sender);
        assert(resp@.messages =~= said.messages);
        assert(resp@.attributes =~= said.attributes);
    }
    Ok(resp)
}

/// Pays a losing bidder back. The caller must have bid and lost, and the
/// auction must be closed. The answer asks the bank to pay the caller's
/// total, less the commission, to `addr` or, without one, to the caller. The
/// auction itself does not change.
///
/// The commission is a percentage: at most a hundred.
pub fn retract(state: &Auction, info: MessageInfo, addr: Option<String>) -> (res: Result<
    Response,
    ContractError,
>)
    requires
        state@.admits_retract(info@.sender),
    ensures
        match res {
            Ok(resp) => state@.retract_refusal(info@.sender) is None && resp@
                == state@.retract_response(info@.sender, addr_view(addr)),
            Err(e) => state@.retract_refusal(info@.sender) == Some(e@),
        },
{
    if info.sender == state.owner {
        return Err(ContractError::WithOwnError {  });
    }
    let is_winner = match &state.winner {
        Some(winner) => info.sender == *winner,
        None => false,
    };
    if is_winner {
        return Err(ContractError::WithWinError {  });
    }
    if state.bidding {
        return Err(ContractError::BidLiveError {  });
    }
    let total_bids: u128 = match state.total_bids.get(&info.sender) {
        Some(amount) => amount,
        None => {
            return Err(ContractError::NoBidError {  });
        },
    };
    let funds: u128 = refund(total_bids, state.commision);
    let with_addr = match addr {
        Some(receiver) => receiver,
        None => info.sender.clone(),
    };
    let bank_msg = BankMsg::Send { to_address: with_addr, amount: coins(funds, ATOM) };

    let resp = Response::new().add_message(bank_msg).add_attribute(
        "action",
        "retract",
    ).add_attribute("sender", info.sender.as_str());
    proof {
        let said = state@.retract_response(info@.sender, addr_view(addr));
        assert(resp@.messages =~= said.messages);
        assert(resp@.attributes =~= said.attributes);
    }
    Ok(resp)
}

} // verus!

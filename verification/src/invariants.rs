//! What holds of every auction, whatever calls are made on it.

use crate::error::ContractErrorView;
use crate::host::MessageInfoView;
use crate::model::{opened, Call};
use crate::msg::InstantiateMsgView;
use crate::state::AuctionView;
use vstd::prelude::*;

verus! {

/// A newly opened auction meets the invariant.
pub proof fn lemma_opened_inv(info: MessageInfoView, msg: InstantiateMsgView)
    ensures
        opened(info, msg).inv(),
{
}

/// No call breaks the invariant, whether it is carried out or refused.
pub proof fn lemma_call_keeps_inv(state: AuctionView, call: Call)
    requires
        state.inv(),
    ensures
        state.after(call).inv(),
{
}

/// No sequence of calls breaks the invariant.
pub proof fn lemma_calls_keep_inv(state: AuctionView, calls: Seq<Call>)
    requires
        state.inv(),
    ensures
        state.after_all(calls).inv(),
    decreases calls.len(),
{
    if calls.len() > 0 {
        lemma_calls_keep_inv(state, calls.drop_last());
        lemma_call_keeps_inv(state.after_all(calls.drop_last()), calls.last());
    }
}

/// After any sequence of calls on a newly opened auction, the highest bid is
/// the maximum of all the bidders' totals, and the leader is the one bidder
/// whose total it is. While nobody leads, nobody has bid and the highest bid
/// is zero.
pub proof fn lemma_highest_bid_is_maximum(
    info: MessageInfoView,
    msg: InstantiateMsgView,
    calls: Seq<Call>,
)
    ensures
        ({
            let state = opened(info, msg).after_all(calls);
            let highest = state.highest_bid.bid.amount;
            &&& forall|who: Seq<char>| #[trigger] state.total_of(who) <= highest
            &&& match state.highest_bid.addr {
                Some(leader) => state.total_of(leader) == highest && forall|who: Seq<char>|
                    who != leader ==> #[trigger] state.total_of(who) < highest,
                None => highest == 0,
            }
        }),
{
    lemma_opened_inv(info, msg);
    lemma_calls_keep_inv(opened(info, msg), calls);
    let state = opened(info, msg).after_all(calls);
    let highest = state.highest_bid.bid.amount;
    assert forall|who: Seq<char>| #[trigger] state.total_of(who) <= highest by {
        if state.total_bids.contains_key(who) && state.highest_bid.addr != Some(who) {
            assert(state.total_bids[who] < highest);
        }
    }
    if let Some(leader) = state.highest_bid.addr {
        assert forall|who: Seq<char>| who != leader implies #[trigger] state.total_of(who)
            < highest by {
            if state.total_bids.contains_key(who) {
                assert(state.total_bids[who] < highest);
            }
        }
    }
}

/// Whatever the call, if the highest bid was the maximum of the totals on
/// record before it, it is so after it, whether the call was carried out or
/// refused.
pub proof fn lemma_call_keeps_highest_maximum(state: AuctionView, call: Call)
    requires
        state.highest_is_maximum(),
    ensures
        state.after(call).highest_is_maximum(),
{
    let after = state.after(call);
    if call.msg is Bid && state.bid_refusal(call.info) is None {
        let bidder = call.info.sender;
        assert(after.total_bids.contains_key(bidder));
        assert(after.total_bids[bidder] == after.highest_bid.bid.amount);
        assert forall|who: Seq<char>| after.total_bids.contains_key(who) implies #[trigger]
            after.total_bids[who] <= after.highest_bid.bid.amount by {
            if who != bidder {
                assert(state.total_bids.contains_key(who));
                assert(state.total_bids[who] <= state.highest_bid.bid.amount);
            }
        }
    } else {
        assert(after.total_bids == state.total_bids);
        assert(after.highest_bid == state.highest_bid);
    }
}

/// A bid with funds that is taken puts its caller in the lead, with the
/// caller's earlier total and the attached amount together. That total is above the former
/// highest bid, and every other total stays as it was, at or below the former
/// highest bid: the caller alone holds the maximum.
pub proof fn lemma_taken_bid_takes_the_lead(state: AuctionView, info: MessageInfoView)
    requires
        state.highest_is_maximum(),
        info.funds.len() > 0,
        state.bid_refusal(info) is None,
    ensures
        state.after_bid(info).highest_bid.addr == Some(info.sender),
        state.after_bid(info).highest_bid.bid.amount == state.total_of(info.sender)
            + info.funds[0].amount,
        state.after_bid(info).total_of(info.sender) == state.after_bid(
            info,
        ).highest_bid.bid.amount,
        state.after_bid(info).highest_bid.bid.amount > state.highest_bid.bid.amount,
        forall|who: Seq<char>|
            who != info.sender ==> #[trigger] state.after_bid(info).total_of(who) == state.total_of(
                who,
            ) && state.total_of(who) <= state.highest_bid.bid.amount,
{
    assert forall|who: Seq<char>| who != info.sender implies #[trigger] state.after_bid(
        info,
    ).total_of(who) == state.total_of(who) && state.total_of(who)
        <= state.highest_bid.bid.amount by {
        if state.total_bids.contains_key(who) {
            assert(state.total_bids[who] <= state.highest_bid.bid.amount);
        }
    }
}

/// Whatever the call, the owner stays the same, and if the owner had no bid
/// on record before it, the owner has none after it.
pub proof fn lemma_call_keeps_owner_out(state: AuctionView, call: Call)
    requires
        !state.total_bids.contains_key(state.owner),
    ensures
        state.after(call).owner == state.owner,
        !state.after(call).total_bids.contains_key(state.owner),
{
}

/// No call opens bidding again.
pub proof fn lemma_call_never_reopens(state: AuctionView, call: Call)
    requires
        !state.bidding,
    ensures
        !state.after(call).bidding,
{
}

/// Whatever the call, if the winner was known exactly when bidding was
/// closed before it, that is so after it, and a winner once known stays.
pub proof fn lemma_call_keeps_winner(state: AuctionView, call: Call)
    requires
        state.winner is Some <==> !state.bidding,
    ensures
        state.after(call).winner is Some <==> !state.after(call).bidding,
        state.winner is Some ==> state.after(call).winner == state.winner,
{
}

/// A bid with funds whose total only ties with the highest bid is refused,
/// and the earlier leader keeps the lead.
pub proof fn lemma_tie_keeps_leader(state: AuctionView, info: MessageInfoView)
    requires
        info.funds.len() > 0,
        state.candidate(info) == state.highest_bid.bid.amount,
    ensures
        state.bid_refusal(info) is Some,
        state.after_bid(info) == state,
{
}

/// A bid from the owner is always refused, for that reason, and changes
/// nothing.
pub proof fn lemma_owner_bid_refused(state: AuctionView, info: MessageInfoView)
    requires
        info.sender == state.owner,
    ensures
        state.bid_refusal(info) == Some(ContractErrorView::BidError),
        state.after_bid(info) == state,
{
}

/// Owner and commission are fixed when the auction is opened.
pub proof fn lemma_owner_and_commission_fixed(state: AuctionView, calls: Seq<Call>)
    ensures
        state.after_all(calls).owner == state.owner,
        state.after_all(calls).commision == state.commision,
    decreases calls.len(),
{
    if calls.len() > 0 {
        lemma_owner_and_commission_fixed(state, calls.drop_last());
    }
}

/// After any sequence of calls on a newly opened auction, the owner has no
/// bid on record.
pub proof fn lemma_owner_never_bids(
    info: MessageInfoView,
    msg: InstantiateMsgView,
    calls: Seq<Call>,
)
    ensures
        !opened(info, msg).after_all(calls).total_bids.contains_key(opened(info, msg).owner),
{
    lemma_opened_inv(info, msg);
    lemma_calls_keep_inv(opened(info, msg), calls);
    lemma_owner_and_commission_fixed(opened(info, msg), calls);
}

/// A closed auction stays closed and keeps its winner and its highest bid,
/// whatever calls follow.
pub proof fn lemma_closed_stays_closed(state: AuctionView, calls: Seq<Call>)
    requires
        !state.bidding,
    ensures
        !state.after_all(calls).bidding,
        state.after_all(calls).winner == state.winner,
        state.after_all(calls).highest_bid == state.highest_bid,
        state.after_all(calls).total_bids == state.total_bids,
    decreases calls.len(),
{
    if calls.len() > 0 {
        lemma_closed_stays_closed(state, calls.drop_last());
    }
}

/// After any sequence of calls on a newly opened auction, the winner is
/// known exactly when bidding is closed.
pub proof fn lemma_winner_iff_closed(
    info: MessageInfoView,
    msg: InstantiateMsgView,
    calls: Seq<Call>,
)
    ensures
        opened(info, msg).after_all(calls).winner is Some <==> !opened(info, msg).after_all(
            calls,
        ).bidding,
{
    lemma_opened_inv(info, msg);
    lemma_calls_keep_inv(opened(info, msg), calls);
}

/// No call lowers what a bidder has on record.
pub proof fn lemma_totals_never_decrease(state: AuctionView, calls: Seq<Call>, who: Seq<char>)
    ensures
        state.total_of(who) <= state.after_all(calls).total_of(who),
    decreases calls.len(),
{
    if calls.len() > 0 {
        lemma_totals_never_decrease(state, calls.drop_last(), who);
    }
}

/// A call reads and writes no bid on record but the caller's: two auctions
/// that differ only in what others have bid refuse it alike or answer it
/// alike, and afterwards still differ only in what others have bid, which
/// the call has left as it was.
pub proof fn lemma_call_touches_only_the_caller(state: AuctionView, other: AuctionView, call: Call)
    requires
        state.same_for(other, call.info.sender),
    ensures
        other.admits(call) == state.admits(call),
        other.refusal(call) == state.refusal(call),
        other.response(call) == state.response(call),
        state.after(call).same_for(other.after(call), call.info.sender),
        forall|who: Seq<char>|
            who != call.info.sender ==> (#[trigger] state.after(call).total_bids.contains_key(who)
                == state.total_bids.contains_key(who)) && state.after(call).total_of(who)
                == state.total_of(who),
{
}

} // verus!

//! The auction as a state machine over mathematical values.
//!
//! Every call is described by two functions of the state before it: the
//! reason for which the call is refused, if it is, and the state after it.
//! The executable functions of this library are proved to compute exactly
//! these, and the invariants of the auction are proved about them.

use crate::contract::ATOM;
use crate::decimal::after_commission;
use crate::error::ContractErrorView;
use crate::host::{AttributeView, BankMsgView, CoinView, MessageInfoView, ResponseView};
use crate::msg::{ExecuteMsgView, InstantiateMsgView};
use crate::state::{AuctionView, BidView};
use vstd::prelude::*;

verus! {

/// A call as the host delivers it: who calls, with which funds, and what for.
pub struct Call {
    pub info: MessageInfoView,
    pub msg: ExecuteMsgView,
}

/// The auction right after it was opened by `info.sender`: nobody has bid,
/// and the owner is the one that `msg` names or else the caller.
pub open spec fn opened(info: MessageInfoView, msg: InstantiateMsgView) -> AuctionView {
    AuctionView {
        owner: match msg.owner {
            Some(owner) => owner,
            None => info.sender,
        },
        highest_bid: BidView { addr: None, bid: CoinView { denom: ATOM@, amount: 0 } },
        total_bids: Map::empty(),
        bidding: true,
        winner: None,
        commision: msg.commision,
    }
}

/// The request to pay `amount` of the auction's denomination to `to`.
pub open spec fn payment(to: Seq<char>, amount: nat) -> BankMsgView {
    BankMsgView::Send { to_address: to, amount: seq![CoinView { denom: ATOM@, amount }] }
}

/// The two attributes of every answer: the action, and who took it.
pub open spec fn record(action: Seq<char>, role: Seq<char>, who: Seq<char>) -> Seq<AttributeView> {
    seq![
        AttributeView { key: "action"@, value: action },
        AttributeView { key: role, value: who },
    ]
}

/// The answer to a bid that was taken. It moves no funds: those came with
/// the call.
pub open spec fn bid_response(sender: Seq<char>) -> ResponseView {
    ResponseView { messages: Seq::empty(), attributes: record("bid"@, "bidder"@, sender) }
}

impl AuctionView {
    /// All that `who` has deposited: zero for somebody who never bid.
    pub open spec fn total_of(self, who: Seq<char>) -> nat {
        if self.total_bids.contains_key(who) {
            self.total_bids[who]
        } else {
            0
        }
    }

    /// The caller's total if the attached coin is added to it.
    pub open spec fn candidate(self, info: MessageInfoView) -> nat
        recommends
            info.funds.len() > 0,
    {
        self.total_of(info.sender) + info.funds[0].amount
    }

    /// Why a bid is refused, or `None` if it is taken. The checks are made in
    /// this order: a bid from the owner is refused unread, then one in another
    /// denomination, then one that comes after the close, then one whose
    /// total does not exceed the highest bid. A tie does not unseat the
    /// leader.
    pub open spec fn bid_refusal(self, info: MessageInfoView) -> Option<ContractErrorView>
        recommends
            info.sender != self.owner ==> info.funds.len() > 0,
    {
        if info.sender == self.owner {
            Some(ContractErrorView::BidError)
        } else if info.funds[0].denom != ATOM@ {
            Some(ContractErrorView::DenomError)
        } else if !self.bidding {
            Some(ContractErrorView::BidClosedError)
        } else if self.candidate(info) <= self.highest_bid.bid.amount {
            Some(ContractErrorView::AmountError)
        } else {
            None
        }
    }

    /// The auction after a bid: with the caller in the lead if the bid is
    /// taken, unchanged if it is refused.
    pub open spec fn after_bid(self, info: MessageInfoView) -> AuctionView
        recommends
            info.sender != self.owner ==> info.funds.len() > 0,
    {
        if self.bid_refusal(info) is None {
            AuctionView {
                highest_bid: BidView {
                    addr: Some(info.sender),
                    bid: CoinView { denom: ATOM@, amount: self.candidate(info) },
                },
                total_bids: self.total_bids.insert(info.sender, self.candidate(info)),
                ..self
            }
        } else {
            self
        }
    }

    /// Why a close is refused, or `None` if the auction closes.
    pub open spec fn close_refusal(self, sender: Seq<char>) -> Option<ContractErrorView> {
        if sender != self.owner {
            Some(ContractErrorView::Unauthorised { owner: self.owner })
        } else if !self.bidding {
            Some(ContractErrorView::BidClosedError)
        } else if self.highest_bid.addr is None {
            Some(ContractErrorView::UnexpectedError)
        } else {
            None
        }
    }

    /// The auction after a close: closed, with the leader as the winner, or
    /// unchanged if the close is refused.
    pub open spec fn after_close(self, sender: Seq<char>) -> AuctionView {
        if self.close_refusal(sender) is None {
            AuctionView { bidding: false, winner: self.highest_bid.addr, ..self }
        } else {
            self
        }
    }

    /// The answer to a close: the highest bid is paid to the owner, and to
    /// nobody else.
    pub open spec fn close_response(self, sender: Seq<char>) -> ResponseView {
        ResponseView {
            messages: seq![payment(self.owner, self.highest_bid.bid.amount)],
            attributes: record("close"@, "sender"@, sender),
        }
    }

    /// Why a retraction is refused, or `None` if the caller is paid back.
    /// Only a bidder who lost may retract, and only once the auction is
    /// closed.
    pub open spec fn retract_refusal(self, sender: Seq<char>) -> Option<ContractErrorView> {
        if sender == self.owner {
            Some(ContractErrorView::WithOwnError)
        } else if self.winner == Some(sender) {
            Some(ContractErrorView::WithWinError)
        } else if self.bidding {
            Some(ContractErrorView::BidLiveError)
        } else if !self.total_bids.contains_key(sender) {
            Some(ContractErrorView::NoBidError)
        } else {
            None
        }
    }

    /// What is paid back to `sender`: the sender's total less the
    /// commission, rounded down.
    pub open spec fn refund_of(self, sender: Seq<char>) -> nat {
        after_commission(self.total_of(sender), self.commision)
    }

    /// The answer to a retraction: the refund is paid to `receiver` or,
    /// without one, to the caller.
    pub open spec fn retract_response(
        self,
        sender: Seq<char>,
        receiver: Option<Seq<char>>,
    ) -> ResponseView {
        ResponseView {
            messages: seq![
                payment(
                    match receiver {
                        Some(to) => to,
                        None => sender,
                    },
                    self.refund_of(sender),
                ),
            ],
            attributes: record("retract"@, "sender"@, sender),
        }
    }

    /// Whether a bid can be judged. A bid from the owner is refused unread
    /// and needs nothing more. Any other comes with exactly one coin, and if
    /// that coin is in the auction's denomination while bidding is open, the
    /// bidder's total with it fits in 128 bits.
    pub open spec fn admits_bid(self, info: MessageInfoView) -> bool {
        info.sender != self.owner ==> {
            &&& info.funds.len() == 1
            &&& info.funds[0].denom == ATOM@ && self.bidding ==> self.candidate(info) <= u128::MAX
        }
    }

    /// Whether a retraction can be judged. One that is refused needs nothing
    /// more. Any other finds a commission of at most a hundred percent.
    pub open spec fn admits_retract(self, sender: Seq<char>) -> bool {
        self.retract_refusal(sender) is None ==> self.commision <= 100
    }

    /// Whether a call can be judged. A close always can.
    pub open spec fn admits(self, call: Call) -> bool {
        match call.msg {
            ExecuteMsgView::Bid => self.admits_bid(call.info),
            ExecuteMsgView::Close => true,
            ExecuteMsgView::Retract { receiver } => self.admits_retract(call.info.sender),
        }
    }

    /// Why a call is refused, or `None` if it is carried out.
    pub open spec fn refusal(self, call: Call) -> Option<ContractErrorView> {
        match call.msg {
            ExecuteMsgView::Bid => self.bid_refusal(call.info),
            ExecuteMsgView::Close => self.close_refusal(call.info.sender),
            ExecuteMsgView::Retract { receiver } => self.retract_refusal(call.info.sender),
        }
    }

    /// The answer to a call that is carried out.
    pub open spec fn response(self, call: Call) -> ResponseView {
        match call.msg {
            ExecuteMsgView::Bid => bid_response(call.info.sender),
            ExecuteMsgView::Close => self.close_response(call.info.sender),
            ExecuteMsgView::Retract { receiver } => self.retract_response(
                call.info.sender,
                receiver,
            ),
        }
    }

    /// The auction after a call. A retraction leaves it as it is.
    pub open spec fn after(self, call: Call) -> AuctionView {
        match call.msg {
            ExecuteMsgView::Bid => self.after_bid(call.info),
            ExecuteMsgView::Close => self.after_close(call.info.sender),
            ExecuteMsgView::Retract { receiver } => self,
        }
    }

    /// The auction after a sequence of calls, made in order.
    pub open spec fn after_all(self, calls: Seq<Call>) -> AuctionView
        decreases calls.len(),
    {
        if calls.len() == 0 {
            self
        } else {
            self.after_all(calls.drop_last()).after(calls.last())
        }
    }

    /// Whether `other` is this auction but for the bids on record, with the
    /// same record for `who`.
    pub open spec fn same_for(self, other: AuctionView, who: Seq<char>) -> bool {
        &&& other == AuctionView { total_bids: other.total_bids, ..self }
        &&& other.total_bids.contains_key(who) == self.total_bids.contains_key(who)
        &&& other.total_of(who) == self.total_of(who)
    }

    /// Whether the highest bid is the maximum of the totals on record, or zero
    /// if none is on record.
    pub open spec fn highest_is_maximum(self) -> bool {
        let highest = self.highest_bid.bid.amount;
        &&& forall|who: Seq<char>|
            self.total_bids.contains_key(who) ==> #[trigger] self.total_bids[who] <= highest
        &&& highest == 0 || exists|who: Seq<char>|
            self.total_bids.contains_key(who) && #[trigger] self.total_bids[who] == highest
    }

    /// What holds of every auction that was opened and then only changed by
    /// calls:
    /// - the owner has no bid on record;
    /// - while nobody has bid, the highest bid is zero and no bid is on
    ///   record;
    /// - once somebody has bid, the highest bid is above zero and is the
    ///   leader's total, and every other bidder's total is below it;
    /// - the winner is known exactly when bidding is closed, and is the
    ///   leader.
    pub open spec fn inv(self) -> bool {
        &&& !self.total_bids.contains_key(self.owner)
        &&& self.highest_bid.bid.denom == ATOM@
        &&& match self.highest_bid.addr {
            None => self.highest_bid.bid.amount == 0 && self.total_bids == Map::<
                Seq<char>,
                nat,
            >::empty(),
            Some(leader) => {
                &&& self.highest_bid.bid.amount > 0
                &&& self.total_bids.contains_key(leader)
                &&& self.total_bids[leader] == self.highest_bid.bid.amount
                &&& forall|other: Seq<char>| #[trigger]
                    self.total_bids.contains_key(other) && other != leader
                        ==> self.total_bids[other] < self.highest_bid.bid.amount
            },
        }
        &&& self.bidding <==> self.winner is None
        &&& !self.bidding ==> self.winner == self.highest_bid.addr
    }
}

} // verus!

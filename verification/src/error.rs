//! The ways in which the auction refuses a call.

use vstd::prelude::*;

verus! {

/// Why a call was refused. A refused call changes nothing.
#[derive(Clone, Debug, PartialEq)]
pub enum ContractError {
    /// Somebody other than `owner` tried to close the auction.
    Unauthorised { owner: String },
    /// The auction was to be closed before anybody had bid.
    UnexpectedError {},
    /// The owner tried to bid.
    BidError {},
    /// The bidder's total would not exceed the highest bid.
    AmountError {},
    /// The funds were not in the auction's denomination.
    DenomError {},
    /// The winner tried to take the winning bid back.
    WithWinError {},
    /// The owner tried to retract.
    WithOwnError {},
    /// A bidder tried to retract while bidding was open.
    BidLiveError {},
    /// A bid or a second close came after the auction was closed.
    BidClosedError {},
    /// Somebody who never bid tried to retract.
    NoBidError {},
    /// The winner was asked for before the auction was closed.
    UndecidedError {},
}

pub enum ContractErrorView {
    Unauthorised { owner: Seq<char> },
    UnexpectedError,
    BidError,
    AmountError,
    DenomError,
    WithWinError,
    WithOwnError,
    BidLiveError,
    BidClosedError,
    NoBidError,
    UndecidedError,
}

impl View for ContractError {
    type V = ContractErrorView;

    open spec fn view(&self) -> ContractErrorView {
        match self {
            ContractError::Unauthorised { owner } => ContractErrorView::Unauthorised {
                owner: owner@,
            },
            ContractError::UnexpectedError {  } => ContractErrorView::UnexpectedError,
            ContractError::BidError {  } => ContractErrorView::BidError,
            ContractError::AmountError {  } => ContractErrorView::AmountError,
            ContractError::DenomError {  } => ContractErrorView::DenomError,
            ContractError::WithWinError {  } => ContractErrorView::WithWinError,
            ContractError::WithOwnError {  } => ContractErrorView::WithOwnError,
            ContractError::BidLiveError {  } => ContractErrorView::BidLiveError,
            ContractError::BidClosedError {  } => ContractErrorView::BidClosedError,
            ContractError::NoBidError {  } => ContractErrorView::NoBidError,
            ContractError::UndecidedError {  } => ContractErrorView::UndecidedError,
        }
    }
}

} // verus!

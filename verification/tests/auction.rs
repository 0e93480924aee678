//! The calls on an auction, one by one, with their answers and refusals.

use bidding::contract::exec::{bid, close, retract};
use bidding::contract::query::{biddstate, comm, hbid, winner};
use bidding::contract::{instantiate, ATOM};
use bidding::error::ContractError;
use bidding::host::{coins, Attribute, BankMsg, Coin, MessageInfo, Response};
use bidding::msg::{ExecuteMsg, InstantiateMsg};
use bidding::state::{Auction, Bid};
use bidding::{admits, execute};

fn caller(sender: &str) -> MessageInfo {
    MessageInfo { sender: sender.to_string(), funds: Vec::new() }
}

fn bidder(sender: &str, amount: u128) -> MessageInfo {
    MessageInfo { sender: sender.to_string(), funds: coins(amount, ATOM) }
}

fn open(commision: u64) -> Auction {
    instantiate(
        caller("owner"),
        InstantiateMsg { commodity: "bar of gold".to_string(), owner: None, commision },
    )
}

fn attribute(key: &str, value: &str) -> Attribute {
    Attribute { key: key.to_string(), value: value.to_string() }
}

fn payment(to: &str, amount: u128) -> BankMsg {
    BankMsg::Send { to_address: to.to_string(), amount: coins(amount, ATOM) }
}

/// An auction in which bidder2 has bid 5 and then bidder1 has bid 10.
fn two_bids(commision: u64) -> Auction {
    let mut state = open(commision);
    bid(&mut state, bidder("bidder2", 5)).unwrap();
    bid(&mut state, bidder("bidder1", 10)).unwrap();
    state
}

#[test]
fn a_new_auction_is_open_and_empty() {
    let state = open(10);
    assert_eq!(state.owner, "owner");
    assert_eq!(state.highest_bid, Bid { addr: None, bid: Coin::new(0, "atom") });
    assert_eq!(state.total_bids.get(&"owner".to_string()), None);
    assert!(state.bidding);
    assert_eq!(state.winner, None);
    assert_eq!(state.commision, 10);
}

#[test]
fn the_owner_named_in_the_message_overrides_the_caller() {
    let state = instantiate(
        caller("deployer"),
        InstantiateMsg {
            commodity: "bar of gold".to_string(),
            owner: Some("owner".to_string()),
            commision: 0,
        },
    );
    assert_eq!(state.owner, "owner");
    let mut state = state;
    assert_eq!(bid(&mut state, bidder("owner", 1)), Err(ContractError::BidError {}));
    assert!(bid(&mut state, bidder("deployer", 1)).is_ok());
}

#[test]
fn the_commission_is_stored_as_given() {
    let state = open(250);
    assert_eq!(comm(&state).value, 250);
    assert_eq!(open(0).commision, 0);
    assert_eq!(open(u64::MAX).commision, u64::MAX);
}

#[test]
fn a_commission_above_a_hundred_pays_nobody_back() {
    let mut state = two_bids(101);
    let retraction = ExecuteMsg::Retract { receiver: None };
    // a retraction that is refused is judged whatever the commission
    assert!(admits(&state, &caller("bidder2"), &retraction));
    assert_eq!(retract(&state, caller("bidder2"), None), Err(ContractError::BidLiveError {}));
    close(&mut state, caller("owner")).unwrap();
    assert!(admits(&state, &caller("owner"), &retraction));
    assert!(admits(&state, &caller("bidder1"), &retraction));
    assert!(admits(&state, &caller("bidder3"), &retraction));
    assert!(!admits(&state, &caller("bidder2"), &retraction));

    let mut state = two_bids(100);
    close(&mut state, caller("owner")).unwrap();
    assert!(admits(&state, &caller("bidder2"), &retraction));
    let resp = retract(&state, caller("bidder2"), None).unwrap();
    assert_eq!(resp.messages, vec![payment("bidder2", 0)]);
}

#[test]
fn bids_close_and_retract_in_turn() {
    let mut state = open(10);

    let resp = bid(&mut state, bidder("bidder1", 10)).unwrap();
    assert_eq!(
        resp,
        Response {
            messages: vec![],
            attributes: vec![attribute("action", "bid"), attribute("bidder", "bidder1")],
        }
    );
    assert_eq!(
        state.highest_bid,
        Bid { addr: Some("bidder1".to_string()), bid: Coin::new(10, ATOM) }
    );

    bid(&mut state, bidder("bidder2", 15)).unwrap();
    assert_eq!(
        state.highest_bid,
        Bid { addr: Some("bidder2".to_string()), bid: Coin::new(15, ATOM) }
    );

    let resp = close(&mut state, caller("owner")).unwrap();
    assert_eq!(
        resp,
        Response {
            messages: vec![payment("owner", 15)],
            attributes: vec![attribute("action", "close"), attribute("sender", "owner")],
        }
    );
    assert_eq!(state.winner, Some("bidder2".to_string()));
    assert!(!state.bidding);

    let resp = retract(&state, caller("bidder1"), None).unwrap();
    assert_eq!(
        resp,
        Response {
            messages: vec![payment("bidder1", 9)],
            attributes: vec![attribute("action", "retract"), attribute("sender", "bidder1")],
        }
    );
}

#[test]
fn a_bid_from_the_owner_changes_nothing() {
    let mut state = two_bids(10);
    let before = state.clone();
    assert_eq!(bid(&mut state, bidder("owner", 100)), Err(ContractError::BidError {}));
    assert_eq!(state, before);
    assert_eq!(state.total_bids.get(&"owner".to_string()), None);
}

#[test]
fn a_close_by_somebody_else_leaves_the_auction_open() {
    let mut state = two_bids(10);
    let before = state.clone();
    assert_eq!(
        close(&mut state, caller("bidder1")),
        Err(ContractError::Unauthorised { owner: "owner".to_string() })
    );
    assert_eq!(state, before);
    assert!(biddstate(&state).value);
}

#[test]
fn funds_of_another_denomination_are_refused() {
    let mut state = two_bids(10);
    let before = state.clone();
    let info = MessageInfo { sender: "bidder2".to_string(), funds: coins(100, "osmo") };
    assert_eq!(bid(&mut state, info), Err(ContractError::DenomError {}));
    assert_eq!(state, before);
    assert_eq!(state.total_bids.get(&"bidder2".to_string()), Some(5));

    // somebody who never bid gets no entry
    let info = MessageInfo { sender: "bidder3".to_string(), funds: coins(100, "osmo") };
    assert_eq!(bid(&mut state, info), Err(ContractError::DenomError {}));
    assert_eq!(state, before);
    assert_eq!(state.total_bids.get(&"bidder3".to_string()), None);
}

#[test]
fn the_denomination_is_judged_before_the_close() {
    let mut state = two_bids(10);
    close(&mut state, caller("owner")).unwrap();
    let closed = state.clone();

    let info = MessageInfo { sender: "bidder2".to_string(), funds: coins(20, "btc") };
    assert!(admits(&state, &info, &ExecuteMsg::Bid {}));
    assert_eq!(bid(&mut state, info), Err(ContractError::DenomError {}));

    let info = MessageInfo { sender: "bidder3".to_string(), funds: coins(u128::MAX, "") };
    assert!(admits(&state, &info, &ExecuteMsg::Bid {}));
    assert_eq!(
        execute(&mut state, info, ExecuteMsg::Bid {}),
        Err(ContractError::DenomError {})
    );

    assert_eq!(bid(&mut state, bidder("bidder2", 20)), Err(ContractError::BidClosedError {}));
    assert_eq!(bid(&mut state, bidder("owner", 20)), Err(ContractError::BidError {}));
    let info = MessageInfo { sender: "owner".to_string(), funds: coins(20, "btc") };
    assert_eq!(bid(&mut state, info), Err(ContractError::BidError {}));
    assert_eq!(state, closed);
}

#[test]
fn a_bid_comes_with_exactly_one_coin() {
    let mut state = open(10);
    let several = vec![Coin::new(3, ATOM), Coin::new(100, ATOM)];
    let info = MessageInfo { sender: "bidder1".to_string(), funds: several.clone() };
    assert!(!admits(&state, &info, &ExecuteMsg::Bid {}));
    let mixed = vec![Coin::new(7, "osmo"), Coin::new(3, ATOM)];
    let info = MessageInfo { sender: "bidder1".to_string(), funds: mixed };
    assert!(!admits(&state, &info, &ExecuteMsg::Bid {}));
    assert!(!admits(&state, &caller("bidder1"), &ExecuteMsg::Bid {}));

    let info = MessageInfo { sender: "bidder1".to_string(), funds: vec![Coin::new(3, ATOM)] };
    assert!(admits(&state, &info, &ExecuteMsg::Bid {}));
    bid(&mut state, info).unwrap();
    assert_eq!(hbid(&state).value, Coin::new(3, ATOM));
    assert_eq!(state.total_bids.get(&"bidder1".to_string()), Some(3));

    // the owner's bid is refused unread, whatever comes with it
    let info = MessageInfo { sender: "owner".to_string(), funds: several };
    assert!(admits(&state, &info, &ExecuteMsg::Bid {}));
    assert_eq!(bid(&mut state, info), Err(ContractError::BidError {}));
}

#[test]
fn a_total_below_the_highest_bid_is_refused() {
    let mut state = two_bids(10);
    let before = state.clone();
    assert_eq!(bid(&mut state, bidder("bidder2", 3)), Err(ContractError::AmountError {}));
    assert_eq!(state, before);
    assert_eq!(state.total_bids.get(&"bidder2".to_string()), Some(5));
}

#[test]
fn a_tie_does_not_unseat_the_leader() {
    let mut state = two_bids(10);
    let before = state.clone();
    assert_eq!(bid(&mut state, bidder("bidder2", 5)), Err(ContractError::AmountError {}));
    assert_eq!(bid(&mut state, bidder("bidder3", 10)), Err(ContractError::AmountError {}));
    assert_eq!(bid(&mut state, bidder("bidder1", 0)), Err(ContractError::AmountError {}));
    assert_eq!(state, before);
    assert_eq!(hbid(&state).value, Coin::new(10, ATOM));
    assert_eq!(state.highest_bid.addr, Some("bidder1".to_string()));
}

#[test]
fn a_first_bid_of_nothing_is_refused() {
    let mut state = open(10);
    assert_eq!(bid(&mut state, bidder("bidder1", 0)), Err(ContractError::AmountError {}));
    assert_eq!(state, open(10));
}

#[test]
fn bids_of_one_bidder_add_up() {
    let mut state = two_bids(10);
    bid(&mut state, bidder("bidder2", 6)).unwrap();
    assert_eq!(state.total_bids.get(&"bidder2".to_string()), Some(11));
    assert_eq!(
        state.highest_bid,
        Bid { addr: Some("bidder2".to_string()), bid: Coin::new(11, ATOM) }
    );
    assert_eq!(state.total_bids.get(&"bidder1".to_string()), Some(10));

    bid(&mut state, bidder("bidder2", 1)).unwrap();
    assert_eq!(state.total_bids.get(&"bidder2".to_string()), Some(12));
    assert_eq!(hbid(&state).value, Coin::new(12, ATOM));
}

#[test]
fn the_highest_bid_is_the_maximum_of_the_totals() {
    let mut state = open(0);
    let bids: [(&str, u128, bool); 9] = [
        ("a", 5, true),
        ("b", 6, true),
        ("a", 1, false),
        ("a", 2, true),
        ("c", 7, false),
        ("c", 9, true),
        ("b", 3, false),
        ("b", 4, true),
        ("d", 1, false),
    ];
    let bidders = ["a", "b", "c", "d"];
    for (who, amount, taken) in bids {
        assert_eq!(bid(&mut state, bidder(who, amount)).is_ok(), taken);
        let totals: Vec<u128> =
            bidders.iter().map(|b| state.total_bids.get(&b.to_string()).unwrap_or(0)).collect();
        let highest = *totals.iter().max().unwrap();
        assert_eq!(state.highest_bid.bid.amount, highest);
        let leader = state.highest_bid.addr.clone().unwrap();
        assert_eq!(state.total_bids.get(&leader), Some(highest));
        assert_eq!(totals.iter().filter(|t| **t == highest).count(), 1);
    }
    assert_eq!(state.highest_bid, Bid { addr: Some("b".to_string()), bid: Coin::new(10, ATOM) });
    assert_eq!(state.total_bids.get(&"a".to_string()), Some(7));
    assert_eq!(state.total_bids.get(&"c".to_string()), Some(9));
    assert_eq!(state.total_bids.get(&"d".to_string()), None);
}

#[test]
fn a_bid_needs_funds_and_a_total_that_fits() {
    let mut state = open(10);
    assert!(!admits(&state, &caller("bidder1"), &ExecuteMsg::Bid {}));
    assert!(admits(&state, &bidder("bidder1", u128::MAX), &ExecuteMsg::Bid {}));
    bid(&mut state, bidder("bidder1", u128::MAX)).unwrap();
    assert_eq!(hbid(&state).value, Coin::new(u128::MAX, ATOM));
    assert!(!admits(&state, &bidder("bidder1", 1), &ExecuteMsg::Bid {}));
    assert!(admits(&state, &bidder("bidder1", 0), &ExecuteMsg::Bid {}));
    assert!(admits(&state, &bidder("bidder2", u128::MAX), &ExecuteMsg::Bid {}));
    assert!(admits(&state, &caller("owner"), &ExecuteMsg::Close {}));
    assert!(admits(&state, &caller("bidder1"), &ExecuteMsg::Retract { receiver: None }));
}

#[test]
fn a_bid_that_is_refused_unweighed_may_be_of_any_amount() {
    let mut state = open(10);
    bid(&mut state, bidder("bidder1", u128::MAX)).unwrap();

    // from the owner, even without funds
    assert!(admits(&state, &caller("owner"), &ExecuteMsg::Bid {}));
    assert_eq!(bid(&mut state, caller("owner")), Err(ContractError::BidError {}));

    // in another denomination, however much
    let info = MessageInfo { sender: "bidder1".to_string(), funds: coins(u128::MAX, "osmo") };
    assert!(admits(&state, &info, &ExecuteMsg::Bid {}));
    assert_eq!(bid(&mut state, info), Err(ContractError::DenomError {}));

    // after the close, however much, but not without funds
    close(&mut state, caller("owner")).unwrap();
    assert!(admits(&state, &bidder("bidder1", 1), &ExecuteMsg::Bid {}));
    assert_eq!(bid(&mut state, bidder("bidder1", 1)), Err(ContractError::BidClosedError {}));
    assert!(!admits(&state, &caller("bidder2"), &ExecuteMsg::Bid {}));
}

#[test]
fn an_auction_without_bids_cannot_be_closed() {
    let mut state = open(10);
    assert_eq!(close(&mut state, caller("owner")), Err(ContractError::UnexpectedError {}));
    assert_eq!(state, open(10));
}

#[test]
fn a_closed_auction_stays_closed() {
    let mut state = two_bids(10);
    close(&mut state, caller("owner")).unwrap();
    let closed = state.clone();

    assert_eq!(close(&mut state, caller("owner")), Err(ContractError::BidClosedError {}));
    assert_eq!(bid(&mut state, bidder("bidder2", 100)), Err(ContractError::BidClosedError {}));
    assert_eq!(bid(&mut state, bidder("bidder3", 100)), Err(ContractError::BidClosedError {}));
    assert_eq!(
        close(&mut state, caller("bidder1")),
        Err(ContractError::Unauthorised { owner: "owner".to_string() })
    );
    retract(&state, caller("bidder2"), None).unwrap();

    assert_eq!(state, closed);
    assert!(!biddstate(&state).value);
    assert_eq!(winner(&state).unwrap().value, "bidder1");
}

#[test]
fn the_winner_is_unknown_while_bidding_is_open() {
    let mut state = open(10);
    assert_eq!(winner(&state), Err(ContractError::UndecidedError {}));
    bid(&mut state, bidder("bidder1", 10)).unwrap();
    assert_eq!(winner(&state), Err(ContractError::UndecidedError {}));
    assert!(biddstate(&state).value);
    close(&mut state, caller("owner")).unwrap();
    assert_eq!(winner(&state).unwrap().value, "bidder1");
    assert!(!biddstate(&state).value);
}

#[test]
fn close_pays_the_highest_bid_to_the_owner_only() {
    let mut state = two_bids(10);
    bid(&mut state, bidder("bidder2", 7)).unwrap();
    let resp = close(&mut state, caller("owner")).unwrap();
    assert_eq!(resp.messages, vec![payment("owner", 12)]);
}

#[test]
fn the_winner_cannot_retract() {
    let mut state = two_bids(10);
    close(&mut state, caller("owner")).unwrap();
    assert_eq!(retract(&state, caller("bidder1"), None), Err(ContractError::WithWinError {}));
    assert_eq!(
        retract(&state, caller("bidder1"), Some("bidder2".to_string())),
        Err(ContractError::WithWinError {})
    );
}

#[test]
fn the_owner_cannot_retract() {
    let mut state = two_bids(10);
    assert_eq!(retract(&state, caller("owner"), None), Err(ContractError::WithOwnError {}));
    close(&mut state, caller("owner")).unwrap();
    assert_eq!(retract(&state, caller("owner"), None), Err(ContractError::WithOwnError {}));
}

#[test]
fn nobody_retracts_while_bidding_is_open() {
    let state = two_bids(10);
    assert_eq!(retract(&state, caller("bidder2"), None), Err(ContractError::BidLiveError {}));
    assert_eq!(retract(&state, caller("bidder1"), None), Err(ContractError::BidLiveError {}));
    assert_eq!(retract(&state, caller("bidder3"), None), Err(ContractError::BidLiveError {}));
}

#[test]
fn who_never_bid_has_nothing_to_retract() {
    let mut state = two_bids(10);
    close(&mut state, caller("owner")).unwrap();
    assert_eq!(retract(&state, caller("bidder3"), None), Err(ContractError::NoBidError {}));
}

#[test]
fn a_refund_goes_to_the_receiver_if_one_is_named() {
    let mut state = two_bids(20);
    close(&mut state, caller("owner")).unwrap();
    let resp = retract(&state, caller("bidder2"), Some("friend".to_string())).unwrap();
    assert_eq!(
        resp,
        Response {
            messages: vec![payment("friend", 4)],
            attributes: vec![attribute("action", "retract"), attribute("sender", "bidder2")],
        }
    );
}

#[test]
fn a_retraction_is_not_remembered() {
    let mut state = two_bids(10);
    close(&mut state, caller("owner")).unwrap();
    let before = state.clone();
    let first = retract(&state, caller("bidder2"), None).unwrap();
    let second = retract(&state, caller("bidder2"), None).unwrap();
    assert_eq!(first.messages, vec![payment("bidder2", 4)]);
    assert_eq!(second, first);
    assert_eq!(state, before);
}

#[test]
fn execute_makes_the_call_that_the_message_names() {
    let mut state = open(50);
    execute(&mut state, bidder("bidder1", 4), ExecuteMsg::Bid {}).unwrap();
    execute(&mut state, bidder("bidder2", 9), ExecuteMsg::Bid {}).unwrap();
    assert_eq!(
        execute(&mut state, caller("bidder1"), ExecuteMsg::Retract { receiver: None }),
        Err(ContractError::BidLiveError {})
    );
    let resp = execute(&mut state, caller("owner"), ExecuteMsg::Close {}).unwrap();
    assert_eq!(resp.messages, vec![payment("owner", 9)]);
    let resp =
        execute(&mut state, caller("bidder1"), ExecuteMsg::Retract { receiver: None }).unwrap();
    assert_eq!(resp.messages, vec![payment("bidder1", 2)]);
    assert_eq!(
        execute(&mut state, bidder("bidder1", 9), ExecuteMsg::Bid {}),
        Err(ContractError::BidClosedError {})
    );
}

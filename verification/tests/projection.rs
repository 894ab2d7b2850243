use cfd_protocol::daemon::decimal::Decimal;
use cfd_protocol::daemon::model;
use cfd_protocol::daemon::model::{Role, SettlementKind, UpdateCfdProposal};
use cfd_protocol::daemon::projection::{available_actions, to_cfd_state, CfdAction, CfdState, Price, Usd};

#[test]
fn usd_serializes_with_only_cents() {
    let usd = Usd::new(model::Usd::new(Decimal::new(100012345, 5).unwrap()));

    assert_eq!(usd.serialize(), "1000.12");
}

#[test]
fn price_serializes_with_only_cents() {
    let price = Price::new(model::Price::new(Decimal::new(100012345, 5).unwrap()).unwrap());

    assert_eq!(price.serialize(), "1000.12");
}

#[test]
fn price_that_rounds_to_zero_has_no_rounded_form() {
    let tiny = model::Price::new(Decimal::new(1, 3).unwrap()).unwrap();

    assert!(Price::try_new(tiny).is_none());
}

#[test]
fn proposal_hides_the_state_of_the_contract() {
    let price = model::Price::new(Decimal::new(40000, 0).unwrap()).unwrap();
    let proposal = UpdateCfdProposal::Settlement { price, direction: SettlementKind::Incoming };

    assert_eq!(
        to_cfd_state(&model::CfdState::Open { collaborative_close: None }, Some(&proposal)),
        CfdState::IncomingSettlementProposal
    );
    assert_eq!(
        to_cfd_state(&model::CfdState::Open { collaborative_close: None }, None),
        CfdState::Open
    );
}

#[test]
fn open_contract_offers_the_taker_three_actions() {
    assert_eq!(
        available_actions(CfdState::Open, Role::Taker),
        vec![CfdAction::RollOver, CfdAction::Commit, CfdAction::Settle]
    );
    assert_eq!(available_actions(CfdState::Open, Role::Maker), vec![CfdAction::Commit]);
    assert_eq!(available_actions(CfdState::Closed, Role::Maker), vec![]);
}

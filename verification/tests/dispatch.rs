use sx_provider::engine::Engine;
use sx_provider::provider::{
    dispatch, notify_payload, proposal_payload, run_notify, subscription_plan,
    supply_callback_echo, Action, DropReason,
};
use sx_provider::records::{Confirmation, Family, Message, MessageKind, Selection};
use sx_provider::router::{Handler, Router};
use sx_provider::state::Phase;

fn message(id: u64, sender_id: u64, target_id: u64, name: &str, payload: &str) -> Message {
    Message {
        id,
        sender_id,
        target_id,
        name: name.to_string(),
        payload: payload.to_string(),
        channel_id: 71,
    }
}

#[test]
fn dispatch_lets_the_announcers_handler_select() {
    let plan = subscription_plan("notify", "Demand").unwrap();
    let router = plan.router();
    let mut engine = Engine::new(1, plan.role);
    engine.announce(run_notify("Demand", 0, 1, 0).unwrap(), Some(501)).unwrap();
    let payload = proposal_payload(Family::Demand, serde_json::Value::from(0)).to_text();
    let inbound = message(601, 2, 501, "Template:ProposeSupply", &payload);
    assert_eq!(
        dispatch(&router, plan.listens, &mut engine, &inbound),
        Action::Select(Selection { proposal_id: 601, announcement_id: 501 })
    );
    assert_eq!(engine.announcement_phase(501), Some(Phase::Evaluating));
}

#[test]
fn dispatch_lets_the_counter_proposers_handler_answer_and_confirm() {
    let plan = subscription_plan("subscribe", "Demand").unwrap();
    let router = plan.router();
    let mut engine = Engine::new(2, plan.role);
    let payload = notify_payload(Family::Demand, 3).to_text();
    let request = message(501, 1, 0, "Template:NotifyDemand", &payload);
    match dispatch(&router, plan.listens, &mut engine, &request) {
        Action::Propose(proposal) => {
            assert_eq!(proposal.kind, "Template:ProposeSupply");
            assert_eq!(proposal.payload, proposal_payload(Family::Demand, serde_json::Value::from(3)).to_text());
        }
        other => panic!("no proposal: {:?}", other),
    }
    engine.propose(501, 1, 601).unwrap();
    let selection = message(800, 1, 601, "Template:SelectSupply", "");
    assert_eq!(
        dispatch(&router, plan.listens, &mut engine, &selection),
        Action::Confirm(Confirmation { id: 800, target_id: 601 })
    );
    assert_eq!(engine.proposal_phase(601), Some(Phase::Confirming));
}

#[test]
fn dispatch_takes_every_message_that_is_no_announcement_for_a_selection() {
    let plan = subscription_plan("subscribe", "Supply").unwrap();
    let router = plan.router();
    let names = [
        "Template:NotifyDemand",
        "Template:ProposeSupply",
        "Template:ProposeDemand",
        "Template:SelectDemand",
        "",
    ];
    for name in names {
        let mut engine = Engine::new(2, plan.role);
        engine.propose(501, 1, 601).unwrap();
        let mut direct = Engine::new(2, plan.role);
        direct.propose(501, 1, 601).unwrap();
        let stray = message(801, 1, 999, name, "");
        assert_eq!(
            dispatch(&router, plan.listens, &mut engine, &stray),
            Action::Drop(DropReason::Unmatched)
        );
        let selection = message(800, 1, 601, name, "");
        let routed = dispatch(&router, plan.listens, &mut engine, &selection);
        assert_eq!(routed, Action::Confirm(Confirmation { id: 800, target_id: 601 }));
        assert_eq!(routed, supply_callback_echo(&mut direct, &selection));
        assert_eq!(engine.proposal_phase(601), Some(Phase::Confirming));
        assert_eq!(engine.round(0), direct.round(0));
    }
}

#[test]
fn dispatch_drops_what_an_announcer_has_no_handler_for() {
    let plan = subscription_plan("notify", "Supply").unwrap();
    let router = plan.router();
    let mut engine = Engine::new(1, plan.role);
    engine.announce(run_notify("Supply", 0, 1, 0).unwrap(), Some(501)).unwrap();
    let payload = proposal_payload(Family::Demand, serde_json::Value::from(0)).to_text();
    for name in ["Template:Confirm", "Template:ProposeSupply", "Template:NotifySupply", ""] {
        let stray = message(601, 2, 501, name, &payload);
        assert_eq!(
            dispatch(&router, plan.listens, &mut engine, &stray),
            Action::Drop(DropReason::UnknownKind)
        );
        assert_eq!(engine.announcement_phase(501), Some(Phase::Open));
    }
}

#[test]
fn dispatch_with_an_empty_router_drops_everything() {
    let router = Router::new();
    let mut engine = Engine::new(2, sx_provider::records::Role::CounterProposer);
    engine.propose(501, 1, 601).unwrap();
    let selection = message(800, 1, 601, "Template:SelectDemand", "");
    assert_eq!(
        dispatch(&router, Family::Supply, &mut engine, &selection),
        Action::Drop(DropReason::UnknownKind)
    );
    assert_eq!(engine.proposal_phase(601), Some(Phase::Proposed));
    assert_eq!(engine.lookup(601), Some(0));
}

#[test]
fn dispatch_goes_by_the_handler_that_is_registered_last() {
    let mut router = Router::new();
    router.register(MessageKind::Offer, Handler::DemandEcho);
    let mut engine = Engine::new(2, sx_provider::records::Role::CounterProposer);
    let payload = notify_payload(Family::Supply, 3).to_text();
    let offer = message(501, 1, 0, "Template:NotifySupply", &payload);
    // The demand handler takes the offer for a selection that matches nothing.
    assert_eq!(
        dispatch(&router, Family::Supply, &mut engine, &offer),
        Action::Drop(DropReason::Unmatched)
    );
    router.register(MessageKind::Offer, Handler::SupplyEcho);
    assert!(matches!(dispatch(&router, Family::Supply, &mut engine, &offer), Action::Propose(_)));
    router.register(MessageKind::Offer, Handler::ChannelSubscriber);
    assert_eq!(
        dispatch(&router, Family::Supply, &mut engine, &offer),
        Action::Drop(DropReason::UnknownKind)
    );
}

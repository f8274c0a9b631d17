use sx_provider::channel::Channel;
use sx_provider::engine::Engine;
use sx_provider::envelope::{Envelope, EnvelopeError};
use sx_provider::provider::{
    answer, callback_echo, callback_notifier, classify, demand_callback_echo,
    demand_callback_notifier, describe_notification, describe_proposal, first_frame,
    notify_payload, on_notice, proposal_payload, run_notify, settle_confirmation,
    settle_selection, subscription_plan, supply_callback_echo, supply_callback_notifier,
    take_proposal, Action, DropReason, Plan, Severity, TemplateError,
};
use sx_provider::records::{
    Announcement, ChannelFrame, Confirmation, Family, Message, MessageKind, Proposal, Role,
    Selection,
};
use sx_provider::router::Handler;
use sx_provider::state::Phase;

fn message(id: u64, sender_id: u64, target_id: u64, name: &str, payload: &str) -> Message {
    Message {
        id,
        sender_id,
        target_id,
        name: name.to_string(),
        payload: payload.to_string(),
        channel_id: 0,
    }
}

fn typed(type_tag: &str, identifier: Option<i64>) -> Envelope {
    let identifier = serde_json::Value::from(identifier);
    Envelope {
        context_tag: String::new(),
        id: String::new(),
        type_tag: type_tag.to_string(),
        name: String::new(),
        identifier,
    }
}

fn announcer_with_open(id: u64, family: Family) -> Engine {
    let mut engine = Engine::new(1, Role::Announcer);
    let word = match family {
        Family::Supply => "Supply",
        Family::Demand => "Demand",
    };
    let announcement = run_notify(word, 0, 1, 0).unwrap();
    engine.announce(announcement, Some(id)).unwrap();
    engine
}

#[test]
fn notify_payload_has_the_exact_text() {
    assert_eq!(
        notify_payload(Family::Supply, 3).to_text(),
        "{\"@context\":{\"schema\":\"https://schema.org/\"},\"@id\":\"notify_node\",\"@type\":\"Template:NotifySupply\",\"schema:identifier\":3,\"schema:name\":\"Supply Message from NotifySupply Mode Node. Count = 3\"}"
    );
    assert_eq!(
        notify_payload(Family::Demand, -12).to_text(),
        "{\"@context\":{\"schema\":\"https://schema.org/\"},\"@id\":\"notify_node\",\"@type\":\"Template:NotifyDemand\",\"schema:identifier\":-12,\"schema:name\":\"Demand Message from NotifyDemand Mode Node. Count = -12\"}"
    );
}

#[test]
fn notify_payload_counts_to_the_ends_of_i32() {
    let top = notify_payload(Family::Supply, i32::MAX);
    assert_eq!(top.identifier, serde_json::Value::from(2147483647));
    assert_eq!(top.name, "Supply Message from NotifySupply Mode Node. Count = 2147483647");
    let bottom = notify_payload(Family::Supply, i32::MIN);
    assert_eq!(bottom.identifier, serde_json::Value::from(-2147483648i64));
    assert_eq!(bottom.name, "Supply Message from NotifySupply Mode Node. Count = -2147483648");
    let zero = notify_payload(Family::Demand, 0);
    assert_eq!(zero.name, "Demand Message from NotifyDemand Mode Node. Count = 0");
}

#[test]
fn proposal_payload_has_the_exact_text() {
    assert_eq!(
        proposal_payload(Family::Supply, serde_json::Value::from(3)).to_text(),
        "{\"@context\":{\"schema\":\"https://schema.org/\"},\"@id\":\"supply_node\",\"@type\":\"Template:ProposeDemand\",\"schema:identifier\":3,\"schema:name\":\"Demand Message from SubscribeSupply mode node for Supply[3]\"}"
    );
    assert_eq!(
        proposal_payload(Family::Demand, serde_json::Value::from(41)).to_text(),
        "{\"@context\":{\"schema\":\"https://schema.org/\"},\"@id\":\"supply_node\",\"@type\":\"Template:ProposeSupply\",\"schema:identifier\":41,\"schema:name\":\"Supply Message from SubscribeDemand mode node for Demand[41]\"}"
    );
}

#[test]
fn proposal_payload_without_correlation_number_writes_null() {
    let envelope = proposal_payload(Family::Supply, serde_json::Value::Null);
    assert_eq!(envelope.identifier, serde_json::Value::Null);
    assert_eq!(envelope.name, "Demand Message from SubscribeSupply mode node for Supply[null]");
    assert!(envelope.to_text().contains("\"schema:identifier\":null"));
}

#[test]
fn descriptions_are_assembled_around_the_written_number() {
    assert_eq!(
        describe_notification(Family::Supply, "5"),
        "Supply Message from NotifySupply Mode Node. Count = 5"
    );
    assert_eq!(
        describe_notification(Family::Demand, ""),
        "Demand Message from NotifyDemand Mode Node. Count = "
    );
    assert_eq!(
        describe_proposal(Family::Supply, "5"),
        "Demand Message from SubscribeSupply mode node for Supply[5]"
    );
    assert_eq!(
        describe_proposal(Family::Demand, "null"),
        "Supply Message from SubscribeDemand mode node for Demand[null]"
    );
}

#[test]
fn first_frame_carries_the_data_bytes_of_the_family() {
    assert_eq!(
        first_frame(Family::Supply, 71),
        ChannelFrame {
            frame_id: 0,
            sender_id: 0,
            target_id: 0,
            mbus_id: 71,
            kind: 0,
            info: "data".to_string(),
            payload: String::new(),
            attachment: Some(vec![0, 1, 2]),
        }
    );
    assert_eq!(first_frame(Family::Demand, 0).attachment, Some(vec![3, 4, 5]));
    assert_eq!(first_frame(Family::Demand, u64::MAX).mbus_id, u64::MAX);
}

#[test]
fn run_notify_builds_the_announcement_to_send() {
    let announcement = run_notify("Supply", 4, 17, 1234).unwrap();
    assert_eq!(
        announcement,
        Announcement {
            id: 0,
            provider_id: 17,
            family: Family::Supply,
            kind: "Template:NotifySupply".to_string(),
            payload: notify_payload(Family::Supply, 4).to_text(),
            attachment: vec![],
            created_at: 1234,
        }
    );
    let request = run_notify("Demand", 0, 17, 0).unwrap();
    assert_eq!(request.family, Family::Demand);
    assert_eq!(request.kind, "Template:NotifyDemand");
    let held = Envelope::parse(&request.payload).unwrap();
    assert_eq!(held.type_tag, "Template:NotifyDemand");
    assert_eq!(held.correlation(), Some(0));
}

#[test]
fn run_notify_refuses_an_unknown_message_type() {
    assert_eq!(run_notify("supply", 1, 1, 0), Err(TemplateError::UnknownMessageType));
    assert_eq!(run_notify("", 1, 1, 0), Err(TemplateError::UnknownMessageType));
    assert_eq!(run_notify("Supply ", 1, 1, 0), Err(TemplateError::UnknownMessageType));
    assert_eq!(run_notify("Offer", 1, 1, 0), Err(TemplateError::UnknownMessageType));
}

#[test]
fn subscription_plan_for_each_mode_and_message_type() {
    assert_eq!(
        subscription_plan("notify", "Supply"),
        Ok(Plan {
            role: Role::Announcer,
            announces: Some(Family::Supply),
            listens: Family::Demand,
            handler: Handler::DemandNotifier,
            frames: Handler::ChannelNotifier,
        })
    );
    assert_eq!(
        subscription_plan("notify", "Demand"),
        Ok(Plan {
            role: Role::Announcer,
            announces: Some(Family::Demand),
            listens: Family::Supply,
            handler: Handler::SupplyNotifier,
            frames: Handler::ChannelNotifier,
        })
    );
    assert_eq!(
        subscription_plan("subscribe", "Supply"),
        Ok(Plan {
            role: Role::CounterProposer,
            announces: None,
            listens: Family::Supply,
            handler: Handler::SupplyEcho,
            frames: Handler::ChannelSubscriber,
        })
    );
    assert_eq!(
        subscription_plan("subscribe", "Demand"),
        Ok(Plan {
            role: Role::CounterProposer,
            announces: None,
            listens: Family::Demand,
            handler: Handler::DemandEcho,
            frames: Handler::ChannelSubscriber,
        })
    );
}

#[test]
fn subscription_plan_reports_what_it_does_not_know() {
    assert_eq!(subscription_plan("notify", "supply"), Err(TemplateError::UnknownMessageType));
    assert_eq!(subscription_plan("subscribe", ""), Err(TemplateError::UnknownMessageType));
    assert_eq!(subscription_plan("Notify", "Supply"), Err(TemplateError::UnknownMode));
    assert_eq!(subscription_plan("", "Demand"), Err(TemplateError::UnknownMode));
    assert_eq!(subscription_plan("echo", "nothing"), Err(TemplateError::UnknownMode));
}

#[test]
fn plan_router_registers_the_handlers_of_the_role() {
    let announcer = subscription_plan("notify", "Supply").unwrap().router();
    assert_eq!(announcer.dispatch(MessageKind::Proposal), Some(Handler::DemandNotifier));
    assert_eq!(announcer.dispatch(MessageKind::Frame), Some(Handler::ChannelNotifier));
    assert_eq!(announcer.dispatch(MessageKind::Offer), None);
    assert_eq!(announcer.dispatch(MessageKind::Request), None);
    assert_eq!(announcer.dispatch(MessageKind::Selection), None);
    assert_eq!(announcer.dispatch(MessageKind::Confirm), None);
    let echo = subscription_plan("subscribe", "Demand").unwrap().router();
    assert_eq!(echo.dispatch(MessageKind::Request), Some(Handler::DemandEcho));
    assert_eq!(echo.dispatch(MessageKind::Selection), Some(Handler::DemandEcho));
    assert_eq!(echo.dispatch(MessageKind::Frame), Some(Handler::ChannelSubscriber));
    assert_eq!(echo.dispatch(MessageKind::Offer), None);
    assert_eq!(echo.dispatch(MessageKind::Proposal), None);
    assert_eq!(echo.dispatch(MessageKind::Confirm), None);
    let other = subscription_plan("subscribe", "Supply").unwrap().router();
    assert_eq!(other.dispatch(MessageKind::Offer), Some(Handler::SupplyEcho));
    assert_eq!(other.dispatch(MessageKind::Request), None);
}

#[test]
fn classify_takes_an_announcement_of_the_family_listened_to_for_what_it_is() {
    assert_eq!(
        classify(Role::CounterProposer, Family::Supply, "Template:NotifySupply"),
        MessageKind::Offer
    );
    assert_eq!(
        classify(Role::CounterProposer, Family::Demand, "Template:NotifyDemand"),
        MessageKind::Request
    );
}

#[test]
fn classify_takes_every_other_message_for_a_selection() {
    let others = [
        "Template:NotifyDemand",
        "Template:ProposeSupply",
        "Template:ProposeDemand",
        "Template:SelectDemand",
        "template:notifysupply",
        "",
    ];
    for name in others {
        assert_eq!(classify(Role::CounterProposer, Family::Supply, name), MessageKind::Selection);
    }
    assert_eq!(
        classify(Role::CounterProposer, Family::Demand, "Template:NotifySupply"),
        MessageKind::Selection
    );
}

#[test]
fn classify_for_an_announcer_tells_proposals_from_confirmations() {
    assert_eq!(
        classify(Role::Announcer, Family::Demand, "Template:ProposeDemand"),
        MessageKind::Proposal
    );
    assert_eq!(
        classify(Role::Announcer, Family::Supply, "Template:ProposeSupply"),
        MessageKind::Proposal
    );
    for name in ["Template:ProposeSupply", "Template:NotifySupply", "Template:Confirm", ""] {
        assert_eq!(classify(Role::Announcer, Family::Demand, name), MessageKind::Confirm);
    }
}

#[test]
fn severity_follows_the_taxonomy() {
    assert_eq!(DropReason::Unparseable.severity(), Severity::Error);
    assert_eq!(DropReason::MissingType.severity(), Severity::Error);
    assert_eq!(DropReason::UnknownKind.severity(), Severity::Warning);
    assert_eq!(DropReason::UnknownType.severity(), Severity::Warning);
    assert_eq!(DropReason::NotTakenUp.severity(), Severity::Info);
    assert_eq!(DropReason::Unmatched.severity(), Severity::Info);
}

#[test]
fn notifier_selects_the_first_proposal() {
    let mut engine = announcer_with_open(501, Family::Demand);
    let payload = proposal_payload(Family::Demand, serde_json::Value::from(0)).to_text();
    let inbound = message(601, 2, 501, "Template:ProposeSupply", &payload);
    assert_eq!(
        supply_callback_notifier(&mut engine, &inbound),
        Action::Select(Selection { proposal_id: 601, announcement_id: 501 })
    );
    assert_eq!(engine.announcement_phase(501), Some(Phase::Evaluating));
    let late = message(602, 3, 501, "Template:ProposeSupply", &payload);
    assert_eq!(
        supply_callback_notifier(&mut engine, &late),
        Action::Drop(DropReason::NotTakenUp)
    );
}

#[test]
fn notifier_for_demand_takes_demand_proposals() {
    let mut engine = announcer_with_open(501, Family::Supply);
    let payload = proposal_payload(Family::Supply, serde_json::Value::from(0)).to_text();
    let inbound = message(601, 2, 501, "Template:ProposeDemand", &payload);
    assert_eq!(
        supply_callback_notifier(&mut engine, &inbound),
        Action::Drop(DropReason::UnknownKind)
    );
    assert_eq!(
        demand_callback_notifier(&mut engine, &inbound),
        Action::Select(Selection { proposal_id: 601, announcement_id: 501 })
    );
    assert_eq!(
        callback_notifier(&mut engine, Family::Demand, &inbound),
        Action::Drop(DropReason::NotTakenUp)
    );
}

#[test]
fn notifier_drops_what_it_cannot_read() {
    let mut engine = announcer_with_open(501, Family::Demand);
    let cases = [
        ("Template:NotifySupply", "{\"@type\":\"Template:ProposeSupply\"}", DropReason::UnknownKind),
        ("", "{\"@type\":\"Template:ProposeSupply\"}", DropReason::UnknownKind),
        ("Template:ProposeSupply", "{", DropReason::Unparseable),
        ("Template:ProposeSupply", "{\"schema:name\":\"x\"}", DropReason::MissingType),
        ("Template:ProposeSupply", "{\"@type\":7}", DropReason::MissingType),
        ("Template:ProposeSupply", "{\"@type\":\"Template:ProposeDemand\"}", DropReason::UnknownType),
    ];
    for (name, payload, reason) in cases {
        let inbound = message(601, 2, 501, name, payload);
        assert_eq!(supply_callback_notifier(&mut engine, &inbound), Action::Drop(reason));
        assert_eq!(engine.announcement_phase(501), Some(Phase::Open));
    }
}

#[test]
fn take_proposal_decides_on_what_was_read() {
    let mut engine = announcer_with_open(501, Family::Demand);
    let inbound = message(601, 2, 501, "Template:ProposeSupply", "ignored");
    assert_eq!(
        take_proposal(&mut engine, Family::Supply, &inbound, Err(EnvelopeError::Unparseable)),
        Action::Drop(DropReason::Unparseable)
    );
    assert_eq!(
        take_proposal(&mut engine, Family::Supply, &inbound, Err(EnvelopeError::MissingType)),
        Action::Drop(DropReason::MissingType)
    );
    assert_eq!(
        take_proposal(&mut engine, Family::Supply, &inbound, Ok(typed("Template:NotifySupply", None))),
        Action::Drop(DropReason::UnknownType)
    );
    assert_eq!(engine.announcement_phase(501), Some(Phase::Open));
    assert_eq!(
        take_proposal(&mut engine, Family::Supply, &inbound, Ok(typed("Template:ProposeSupply", None))),
        Action::Select(Selection { proposal_id: 601, announcement_id: 501 })
    );
    assert_eq!(engine.round(0).unwrap().peer_id, 2);
    assert_eq!(
        take_proposal(&mut engine, Family::Supply, &inbound, Ok(typed("Template:ProposeSupply", None))),
        Action::Drop(DropReason::NotTakenUp)
    );
}

#[test]
fn echo_answers_an_announcement_with_a_proposal() {
    let mut engine = Engine::new(2, Role::CounterProposer);
    let payload = notify_payload(Family::Supply, 9).to_text();
    let inbound = message(501, 1, 0, "Template:NotifySupply", &payload);
    let expected = Proposal {
        id: 0,
        target_id: 501,
        sender_id: 2,
        kind: "Template:ProposeDemand".to_string(),
        payload: "{\"@context\":{\"schema\":\"https://schema.org/\"},\"@id\":\"supply_node\",\"@type\":\"Template:ProposeDemand\",\"schema:identifier\":9,\"schema:name\":\"Demand Message from SubscribeSupply mode node for Supply[9]\"}".to_string(),
    };
    assert_eq!(supply_callback_echo(&mut engine, &inbound), Action::Propose(expected));
    assert_eq!(engine.round_count(), 0);
}

#[test]
fn echo_for_demand_answers_with_a_supply_proposal() {
    let mut engine = Engine::new(2, Role::CounterProposer);
    let payload = notify_payload(Family::Demand, 1).to_text();
    let inbound = message(501, 1, 0, "Template:NotifyDemand", &payload);
    match demand_callback_echo(&mut engine, &inbound) {
        Action::Propose(proposal) => {
            assert_eq!(proposal.kind, "Template:ProposeSupply");
            assert_eq!(proposal.target_id, 501);
            let held = Envelope::parse(&proposal.payload).unwrap();
            assert_eq!(held.type_tag, "Template:ProposeSupply");
            assert_eq!(held.id, "supply_node");
            assert_eq!(held.correlation(), Some(1));
            assert_eq!(held.name, "Supply Message from SubscribeDemand mode node for Demand[1]");
        }
        other => panic!("no proposal: {:?}", other),
    }
}

#[test]
fn echo_drops_an_announcement_that_it_cannot_read() {
    let mut engine = Engine::new(2, Role::CounterProposer);
    let cases = [
        ("not json", DropReason::Unparseable),
        ("[]", DropReason::MissingType),
        ("{\"@type\":\"Template:NotifyDemand\"}", DropReason::UnknownType),
    ];
    for (payload, reason) in cases {
        let inbound = message(501, 1, 0, "Template:NotifySupply", payload);
        assert_eq!(supply_callback_echo(&mut engine, &inbound), Action::Drop(reason));
    }
    assert_eq!(engine.round_count(), 0);
}

#[test]
fn answer_decides_on_what_was_read() {
    let inbound = message(501, 1, 0, "Template:NotifySupply", "ignored");
    assert_eq!(
        answer(2, Family::Supply, &inbound, Err(EnvelopeError::Unparseable)),
        Action::Drop(DropReason::Unparseable)
    );
    assert_eq!(
        answer(2, Family::Supply, &inbound, Err(EnvelopeError::MissingType)),
        Action::Drop(DropReason::MissingType)
    );
    assert_eq!(
        answer(2, Family::Supply, &inbound, Ok(typed("Template:ProposeSupply", Some(1)))),
        Action::Drop(DropReason::UnknownType)
    );
    match answer(2, Family::Supply, &inbound, Ok(typed("Template:NotifySupply", None))) {
        Action::Propose(proposal) => {
            assert_eq!(proposal.id, 0);
            assert_eq!(proposal.target_id, 501);
            assert_eq!(proposal.sender_id, 2);
            assert_eq!(proposal.payload, proposal_payload(Family::Supply, serde_json::Value::Null).to_text());
        }
        other => panic!("no proposal: {:?}", other),
    }
}

#[test]
fn echo_takes_any_other_message_for_a_selection() {
    let mut engine = Engine::new(2, Role::CounterProposer);
    engine.propose(501, 1, 601).unwrap();
    let mut selection = message(800, 1, 601, "Template:SelectDemand", "");
    selection.channel_id = 71;
    let stray = message(801, 1, 999, "Template:SelectDemand", "");
    assert_eq!(supply_callback_echo(&mut engine, &stray), Action::Drop(DropReason::Unmatched));
    assert_eq!(engine.proposal_phase(601), Some(Phase::Proposed));
    assert_eq!(
        callback_echo(&mut engine, Family::Supply, &selection),
        Action::Confirm(Confirmation { id: 800, target_id: 601 })
    );
    assert_eq!(engine.proposal_phase(601), Some(Phase::Confirming));
    assert_eq!(
        supply_callback_echo(&mut engine, &selection),
        Action::Drop(DropReason::Unmatched)
    );
}

#[test]
fn on_notice_opens_the_channel_of_an_announcer() {
    let mut engine = announcer_with_open(501, Family::Supply);
    let payload = proposal_payload(Family::Supply, serde_json::Value::from(0)).to_text();
    demand_callback_notifier(&mut engine, &message(601, 2, 501, "Template:ProposeDemand", &payload));
    assert!(engine.select(601, Some(71)));
    let confirm = message(900, 2, 601, "Template:Confirm", "");
    assert_eq!(
        on_notice(&mut engine, &confirm),
        Action::Open(Channel { channel_id: 71, local_id: 1, remote_id: 2, kind: Role::Announcer })
    );
    assert_eq!(on_notice(&mut engine, &confirm), Action::Drop(DropReason::Unmatched));
}

#[test]
fn settle_selection_commits_confirms_and_opens() {
    let mut engine = announcer_with_open(501, Family::Supply);
    let payload = proposal_payload(Family::Supply, serde_json::Value::from(0)).to_text();
    let inbound = message(601, 2, 501, "Template:ProposeDemand", &payload);
    let selection = match demand_callback_notifier(&mut engine, &inbound) {
        Action::Select(selection) => selection,
        other => panic!("no selection: {:?}", other),
    };
    let channel = settle_selection(&mut engine, selection, Some(71)).unwrap();
    assert_eq!(
        channel,
        Channel { channel_id: 71, local_id: 1, remote_id: 2, kind: Role::Announcer }
    );
    assert_eq!(engine.announcement_phase(501), Some(Phase::Done));
    assert_eq!(engine.lookup(601), None);
    assert!(engine.is_channel_open(71));
    assert_eq!(settle_selection(&mut engine, selection, Some(72)), None);
    assert!(!engine.is_channel_open(72));
}

#[test]
fn settle_selection_of_a_failed_send_opens_no_channel() {
    let mut engine = announcer_with_open(501, Family::Supply);
    let payload = proposal_payload(Family::Supply, serde_json::Value::from(0)).to_text();
    demand_callback_notifier(&mut engine, &message(601, 2, 501, "Template:ProposeDemand", &payload));
    let selection = Selection { proposal_id: 601, announcement_id: 501 };
    assert_eq!(settle_selection(&mut engine, selection, None), None);
    assert_eq!(settle_selection(&mut engine, selection, Some(0)), None);
    assert_eq!(engine.announcement_phase(501), Some(Phase::Open));
    assert_eq!(engine.lookup(601), None);
    assert!(!engine.is_channel_open(0));
    assert_eq!(settle_selection(&mut engine, selection, Some(71)), None);
    assert!(!engine.is_channel_open(71));
}

#[test]
fn a_later_proposal_is_selected_after_a_failed_send() {
    let mut engine = announcer_with_open(501, Family::Supply);
    let payload = proposal_payload(Family::Supply, serde_json::Value::from(0)).to_text();
    let first = message(601, 2, 501, "Template:ProposeDemand", &payload);
    let later = message(602, 3, 501, "Template:ProposeDemand", &payload);
    let selection = match demand_callback_notifier(&mut engine, &first) {
        Action::Select(selection) => selection,
        other => panic!("no selection: {:?}", other),
    };
    assert_eq!(
        demand_callback_notifier(&mut engine, &later),
        Action::Drop(DropReason::NotTakenUp)
    );
    assert_eq!(settle_selection(&mut engine, selection, None), None);
    assert_eq!(
        demand_callback_notifier(&mut engine, &later),
        Action::Select(Selection { proposal_id: 602, announcement_id: 501 })
    );
    let channel = settle_selection(
        &mut engine,
        Selection { proposal_id: 602, announcement_id: 501 },
        Some(72),
    )
    .unwrap();
    assert_eq!(channel.remote_id, 3);
    assert_eq!(engine.announcement_phase(501), Some(Phase::Done));
}

#[test]
fn echo_carries_the_identifier_of_the_announcement_whatever_it_holds() {
    let cases = [
        "9223372036854775808",
        "18446744073709551615",
        "-7",
        "1.5",
        "\"seven\"",
        "true",
        "[1,2]",
        "{\"n\":1}",
        "null",
    ];
    for written in cases {
        let mut engine = Engine::new(2, Role::CounterProposer);
        let payload = format!(
            "{{\"@type\":\"Template:NotifyDemand\",\"schema:identifier\":{}}}",
            written
        );
        let member: serde_json::Value = serde_json::from_str(written).unwrap();
        let inbound = message(501, 1, 0, "Template:NotifyDemand", &payload);
        match demand_callback_echo(&mut engine, &inbound) {
            Action::Propose(proposal) => {
                let sent: serde_json::Value = serde_json::from_str(&proposal.payload).unwrap();
                let came: serde_json::Value = serde_json::from_str(&payload).unwrap();
                assert_eq!(sent["schema:identifier"], came["schema:identifier"]);
                assert_eq!(sent["schema:identifier"], member);
                assert_eq!(
                    sent["schema:name"].as_str().unwrap(),
                    format!("Supply Message from SubscribeDemand mode node for Demand[{}]", member)
                );
                assert_eq!(proposal.target_id, 501);
                assert_eq!(proposal.id, 0);
                assert_eq!(proposal.kind, "Template:ProposeSupply");
            }
            other => panic!("no proposal: {:?}", other),
        }
    }
}

#[test]
fn echo_writes_null_for_an_announcement_without_identifier() {
    let mut engine = Engine::new(2, Role::CounterProposer);
    let inbound = message(501, 1, 0, "Template:NotifySupply", "{\"@type\":\"Template:NotifySupply\"}");
    match supply_callback_echo(&mut engine, &inbound) {
        Action::Propose(proposal) => {
            assert_eq!(
                proposal.payload,
                "{\"@context\":{\"schema\":\"https://schema.org/\"},\"@id\":\"supply_node\",\"@type\":\"Template:ProposeDemand\",\"schema:identifier\":null,\"schema:name\":\"Demand Message from SubscribeSupply mode node for Supply[null]\"}"
            );
        }
        other => panic!("no proposal: {:?}", other),
    }
}

#[test]
fn settle_confirmation_opens_the_channel_and_queues_the_first_frame() {
    let mut engine = Engine::new(2, Role::CounterProposer);
    engine.propose(501, 1, 601).unwrap();
    let mut selection = message(800, 1, 601, "Template:SelectDemand", "");
    selection.channel_id = 71;
    supply_callback_echo(&mut engine, &selection);
    let channel = settle_confirmation(&mut engine, Family::Supply, 601, true).unwrap();
    assert_eq!(
        channel,
        Channel { channel_id: 71, local_id: 2, remote_id: 1, kind: Role::CounterProposer }
    );
    assert_eq!(engine.proposal_phase(601), Some(Phase::Done));
    assert!(engine.is_channel_open(71));
    assert_eq!(engine.take_outbound(channel), vec![first_frame(Family::Supply, 71)]);
    assert_eq!(settle_confirmation(&mut engine, Family::Supply, 601, true), None);
    assert_eq!(engine.take_outbound(channel), vec![]);
}

#[test]
fn settle_confirmation_of_a_failed_send_falls_back() {
    let mut engine = Engine::new(2, Role::CounterProposer);
    engine.propose(501, 1, 601).unwrap();
    let mut selection = message(800, 1, 601, "Template:SelectSupply", "");
    selection.channel_id = 71;
    demand_callback_echo(&mut engine, &selection);
    assert_eq!(settle_confirmation(&mut engine, Family::Demand, 601, false), None);
    assert_eq!(engine.proposal_phase(601), Some(Phase::Proposed));
    assert_eq!(engine.lookup(601), Some(0));
    assert!(!engine.is_channel_open(71));
    assert_eq!(settle_confirmation(&mut engine, Family::Demand, 601, true), None);
    assert_eq!(engine.proposal_phase(601), Some(Phase::Proposed));
}

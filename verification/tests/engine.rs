use sx_provider::channel::Channel;
use sx_provider::engine::Engine;
use sx_provider::records::{
    Announcement, ChannelFrame, Confirmation, Family, Proposal, Role, Selection,
};
use sx_provider::state::{NegotiationError, Notice, Phase, Reaction, Round};

fn offer() -> Announcement {
    Announcement {
        id: 0,
        provider_id: 1,
        family: Family::Supply,
        kind: "Template:NotifySupply".to_string(),
        payload: "{\"@type\":\"Template:NotifySupply\"}".to_string(),
        attachment: vec![],
        created_at: 1000,
    }
}

fn proposal(id: u64, target_id: u64, sender_id: u64) -> Proposal {
    Proposal {
        id,
        target_id,
        sender_id,
        kind: "Template:ProposeDemand".to_string(),
        payload: "{\"@type\":\"Template:ProposeDemand\"}".to_string(),
    }
}

fn notice(id: u64, sender_id: u64, target_id: u64, channel_id: u64) -> Notice {
    Notice { id, sender_id, target_id, channel_id }
}

fn announcer_with_open(id: u64) -> Engine {
    let mut engine = Engine::new(1, Role::Announcer);
    assert_eq!(engine.announce(offer(), Some(id)).unwrap().id, id);
    engine
}

#[test]
fn engine_starts_without_rounds() {
    let engine = Engine::new(9, Role::CounterProposer);
    assert_eq!(engine.provider_id(), 9);
    assert_eq!(engine.role(), Role::CounterProposer);
    assert_eq!(engine.round_count(), 0);
    assert_eq!(engine.round(0), None);
    assert_eq!(engine.lookup(1), None);
    assert!(!engine.is_channel_open(1));
}

#[test]
fn announce_records_an_open_announcement_under_the_brokers_id() {
    let mut engine = Engine::new(1, Role::Announcer);
    let announced = engine.announce(offer(), Some(501)).unwrap();
    assert_eq!(announced, Announcement { id: 501, ..offer() });
    assert_eq!(engine.round_count(), 1);
    assert_eq!(
        engine.round(0),
        Some(Round {
            announcement_id: 501,
            proposal_id: 0,
            peer_id: 0,
            channel_id: 0,
            phase: Phase::Open
        })
    );
    assert_eq!(engine.announcement_phase(501), Some(Phase::Open));
    assert_eq!(engine.announcement_phase(502), None);
}

#[test]
fn announce_discards_the_record_when_the_send_fails() {
    let mut engine = Engine::new(1, Role::Announcer);
    assert_eq!(engine.announce(offer(), None), Err(NegotiationError::SendFailed));
    assert_eq!(engine.announce(offer(), Some(0)), Err(NegotiationError::SendFailed));
    assert_eq!(engine.round_count(), 0);
}

#[test]
fn announce_is_for_announcers() {
    let mut engine = Engine::new(2, Role::CounterProposer);
    assert_eq!(engine.announce(offer(), Some(501)), Err(NegotiationError::WrongRole));
    assert_eq!(engine.round_count(), 0);
    assert_eq!(engine.announcement_phase(501), None);
}

#[test]
fn announce_refuses_a_record_that_was_announced() {
    let mut engine = Engine::new(1, Role::Announcer);
    let announced = engine.announce(offer(), Some(501)).unwrap();
    assert_eq!(engine.announce(announced, Some(502)), Err(NegotiationError::AlreadyAnnounced));
    assert_eq!(engine.round_count(), 1);
}

#[test]
fn announce_refuses_an_id_that_is_on_record() {
    let mut engine = announcer_with_open(501);
    assert_eq!(engine.announce(offer(), Some(501)), Err(NegotiationError::DuplicateId));
    assert_eq!(engine.round_count(), 1);
    assert_eq!(engine.announce(offer(), Some(502)).unwrap().id, 502);
    assert_eq!(engine.round_count(), 2);
}

#[test]
fn first_proposal_for_an_open_announcement_is_selected() {
    let mut engine = announcer_with_open(501);
    let verdict = engine.on_proposal_received(&proposal(601, 501, 2));
    assert_eq!(verdict, Some(Selection { proposal_id: 601, announcement_id: 501 }));
    assert_eq!(engine.announcement_phase(501), Some(Phase::Evaluating));
    assert_eq!(engine.proposal_phase(601), Some(Phase::Evaluating));
    assert_eq!(
        engine.round(0),
        Some(Round {
            announcement_id: 501,
            proposal_id: 601,
            peer_id: 2,
            channel_id: 0,
            phase: Phase::Evaluating
        })
    );
}

#[test]
fn later_proposals_for_the_same_announcement_are_ignored() {
    let mut engine = announcer_with_open(501);
    assert!(engine.on_proposal_received(&proposal(601, 501, 2)).is_some());
    assert_eq!(engine.on_proposal_received(&proposal(602, 501, 3)), None);
    assert_eq!(engine.proposal_phase(602), None);
    assert!(engine.select(601, Some(71)));
    assert_eq!(engine.on_proposal_received(&proposal(603, 501, 4)), None);
    assert_eq!(engine.round(0).unwrap().proposal_id, 601);
    assert_eq!(engine.round_count(), 1);
}

#[test]
fn proposal_for_an_unknown_announcement_is_ignored() {
    let mut engine = announcer_with_open(501);
    assert_eq!(engine.on_proposal_received(&proposal(601, 999, 2)), None);
    assert_eq!(engine.announcement_phase(501), Some(Phase::Open));
}

#[test]
fn proposal_without_id_or_with_a_known_id_is_ignored() {
    let mut engine = announcer_with_open(501);
    engine.announce(offer(), Some(502)).unwrap();
    assert_eq!(engine.on_proposal_received(&proposal(0, 501, 2)), None);
    assert!(engine.on_proposal_received(&proposal(601, 501, 2)).is_some());
    assert_eq!(engine.on_proposal_received(&proposal(601, 502, 2)), None);
    assert_eq!(engine.announcement_phase(502), Some(Phase::Open));
}

#[test]
fn counter_proposer_takes_up_no_proposal() {
    let mut engine = Engine::new(2, Role::CounterProposer);
    engine.propose(501, 1, 601).unwrap();
    assert_eq!(engine.on_proposal_received(&proposal(602, 501, 3)), None);
    assert_eq!(engine.round_count(), 1);
}

#[test]
fn select_commits_and_fills_the_ledger() {
    let mut engine = announcer_with_open(501);
    engine.on_proposal_received(&proposal(601, 501, 2));
    assert!(engine.select(601, Some(71)));
    assert_eq!(engine.announcement_phase(501), Some(Phase::AwaitingConfirm));
    assert_eq!(engine.lookup(601), Some(0));
    assert_eq!(
        engine.round(0),
        Some(Round {
            announcement_id: 501,
            proposal_id: 601,
            peer_id: 2,
            channel_id: 71,
            phase: Phase::AwaitingConfirm
        })
    );
    assert!(!engine.is_channel_open(71));
}

#[test]
fn select_twice_has_no_further_effect() {
    let mut engine = announcer_with_open(501);
    engine.on_proposal_received(&proposal(601, 501, 2));
    assert!(engine.select(601, Some(71)));
    let after_first = engine.round(0);
    assert!(!engine.select(601, Some(72)));
    assert!(!engine.select(601, Some(71)));
    assert_eq!(engine.round(0), after_first);
    assert_eq!(engine.lookup(601), Some(0));
    assert_eq!(engine.round_count(), 1);
}

#[test]
fn select_that_could_not_be_sent_leaves_the_announcement_open() {
    let mut engine = announcer_with_open(501);
    engine.on_proposal_received(&proposal(601, 501, 2));
    assert!(!engine.select(601, None));
    assert_eq!(engine.announcement_phase(501), Some(Phase::Open));
    assert_eq!(engine.proposal_phase(601), None);
    assert_eq!(engine.lookup(601), None);
    assert_eq!(
        engine.round(0),
        Some(Round {
            announcement_id: 501,
            proposal_id: 0,
            peer_id: 0,
            channel_id: 0,
            phase: Phase::Open
        })
    );
    assert!(!engine.select(601, Some(71)));
    assert_eq!(engine.announcement_phase(501), Some(Phase::Open));
}

#[test]
fn select_answered_with_no_channel_counts_as_not_sent() {
    let mut engine = announcer_with_open(501);
    engine.on_proposal_received(&proposal(601, 501, 2));
    assert!(!engine.select(601, Some(0)));
    assert_eq!(engine.announcement_phase(501), Some(Phase::Open));
    assert_eq!(engine.lookup(601), None);
}

#[test]
fn a_later_proposal_is_taken_up_after_a_selection_that_could_not_be_sent() {
    let mut engine = announcer_with_open(501);
    engine.on_proposal_received(&proposal(601, 501, 2));
    assert_eq!(engine.on_proposal_received(&proposal(602, 501, 3)), None);
    assert!(!engine.select(601, None));
    assert_eq!(
        engine.on_proposal_received(&proposal(602, 501, 3)),
        Some(Selection { proposal_id: 602, announcement_id: 501 })
    );
    assert_eq!(engine.round(0).unwrap().peer_id, 3);
    assert!(engine.select(602, Some(72)));
    assert_eq!(engine.announcement_phase(501), Some(Phase::AwaitingConfirm));
    assert_eq!(engine.lookup(602), Some(0));
    assert_eq!(engine.lookup(601), None);
    assert_eq!(engine.round_count(), 1);
}

#[test]
fn the_proposal_that_was_let_go_may_come_again() {
    let mut engine = announcer_with_open(501);
    engine.on_proposal_received(&proposal(601, 501, 2));
    assert!(!engine.select(601, None));
    assert_eq!(
        engine.on_proposal_received(&proposal(601, 501, 2)),
        Some(Selection { proposal_id: 601, announcement_id: 501 })
    );
    assert!(engine.select(601, Some(71)));
    assert_eq!(engine.announcement_phase(501), Some(Phase::AwaitingConfirm));
}

#[test]
fn a_failed_selection_disturbs_no_other_round() {
    let mut engine = Engine::new(1, Role::Announcer);
    engine.announce(offer(), Some(501)).unwrap();
    engine.announce(offer(), Some(502)).unwrap();
    engine.on_proposal_received(&proposal(601, 501, 2));
    engine.on_proposal_received(&proposal(602, 502, 3));
    assert!(engine.select(602, Some(72)));
    let other = engine.round(1);
    assert!(!engine.select(601, None));
    assert_eq!(engine.round(1), other);
    assert_eq!(engine.lookup(602), Some(1));
    assert_eq!(engine.announcement_phase(501), Some(Phase::Open));
    assert_eq!(engine.announcement_phase(502), Some(Phase::AwaitingConfirm));
}

#[test]
fn select_of_an_unknown_proposal_does_nothing() {
    let mut engine = announcer_with_open(501);
    assert!(!engine.select(601, Some(71)));
    assert!(!engine.select(0, Some(71)));
    assert_eq!(engine.announcement_phase(501), Some(Phase::Open));
    assert_eq!(engine.lookup(601), None);
    assert_eq!(engine.lookup(0), None);
}

#[test]
fn confirmation_is_accepted_when_the_ledger_holds_its_target() {
    let mut engine = announcer_with_open(501);
    engine.on_proposal_received(&proposal(601, 501, 2));
    engine.select(601, Some(71));
    let reaction = engine.on_selection_or_confirm(notice(900, 2, 601, 0));
    assert_eq!(
        reaction,
        Reaction::Matched(Channel {
            channel_id: 71,
            local_id: 1,
            remote_id: 2,
            kind: Role::Announcer
        })
    );
    assert_eq!(engine.announcement_phase(501), Some(Phase::Matched));
    assert_eq!(engine.lookup(601), None);
    assert!(!engine.is_channel_open(71));
}

#[test]
fn confirmation_is_consumed_once() {
    let mut engine = announcer_with_open(501);
    engine.on_proposal_received(&proposal(601, 501, 2));
    engine.select(601, Some(71));
    assert!(matches!(engine.on_selection_or_confirm(notice(900, 2, 601, 0)), Reaction::Matched(_)));
    assert_eq!(engine.on_selection_or_confirm(notice(900, 2, 601, 0)), Reaction::Dropped);
    assert_eq!(engine.on_selection_or_confirm(notice(901, 2, 601, 0)), Reaction::Dropped);
    assert_eq!(engine.announcement_phase(501), Some(Phase::Matched));
}

#[test]
fn confirmation_for_an_unknown_target_is_dropped() {
    let mut engine = announcer_with_open(501);
    engine.on_proposal_received(&proposal(601, 501, 2));
    assert_eq!(engine.on_selection_or_confirm(notice(900, 2, 601, 71)), Reaction::Dropped);
    assert_eq!(engine.on_selection_or_confirm(notice(900, 2, 501, 71)), Reaction::Dropped);
    assert_eq!(engine.on_selection_or_confirm(notice(900, 2, 0, 71)), Reaction::Dropped);
    assert_eq!(engine.announcement_phase(501), Some(Phase::Evaluating));
    assert!(!engine.is_channel_open(71));
}

#[test]
fn open_channel_follows_the_match_and_is_idempotent() {
    let mut engine = announcer_with_open(501);
    engine.on_proposal_received(&proposal(601, 501, 2));
    assert_eq!(engine.open_channel(601), None);
    engine.select(601, Some(71));
    assert_eq!(engine.open_channel(601), None);
    assert!(!engine.is_channel_open(71));
    engine.on_selection_or_confirm(notice(900, 2, 601, 0));
    let channel = engine.open_channel(601).unwrap();
    assert_eq!(
        channel,
        Channel { channel_id: 71, local_id: 1, remote_id: 2, kind: Role::Announcer }
    );
    assert!(engine.is_channel_open(71));
    assert_eq!(engine.announcement_phase(501), Some(Phase::Done));
    assert_eq!(engine.open_channel(601), None);
    assert_eq!(engine.announcement_phase(501), Some(Phase::Done));
    assert_eq!(engine.open_channel(0), None);
    assert_eq!(engine.open_channel(777), None);
}

#[test]
fn propose_records_the_proposal_and_fills_the_ledger() {
    let mut engine = Engine::new(2, Role::CounterProposer);
    assert_eq!(engine.propose(501, 1, 601), Ok(601));
    assert_eq!(engine.proposal_phase(601), Some(Phase::Proposed));
    assert_eq!(engine.lookup(601), Some(0));
    assert_eq!(
        engine.round(0),
        Some(Round {
            announcement_id: 501,
            proposal_id: 601,
            peer_id: 1,
            channel_id: 0,
            phase: Phase::Proposed
        })
    );
    assert_eq!(engine.propose(502, 1, 602), Ok(602));
    assert_eq!(engine.lookup(602), Some(1));
}

#[test]
fn propose_reports_each_failure_and_changes_nothing() {
    let mut announcer = Engine::new(1, Role::Announcer);
    assert_eq!(announcer.propose(501, 1, 601), Err(NegotiationError::WrongRole));
    assert_eq!(announcer.round_count(), 0);
    let mut engine = Engine::new(2, Role::CounterProposer);
    assert_eq!(engine.propose(501, 1, 0), Err(NegotiationError::SendFailed));
    assert_eq!(engine.round_count(), 0);
    assert_eq!(engine.propose(501, 1, 601), Ok(601));
    assert_eq!(engine.propose(502, 1, 601), Err(NegotiationError::DuplicateId));
    assert_eq!(engine.round_count(), 1);
    assert_eq!(engine.round(0).unwrap().announcement_id, 501);
}

#[test]
fn selection_of_an_own_proposal_asks_for_the_confirmation() {
    let mut engine = Engine::new(2, Role::CounterProposer);
    engine.propose(501, 1, 601).unwrap();
    let reaction = engine.on_selection_or_confirm(notice(800, 1, 601, 71));
    assert_eq!(reaction, Reaction::Confirm(Confirmation { id: 800, target_id: 601 }));
    assert_eq!(engine.proposal_phase(601), Some(Phase::Confirming));
    assert_eq!(engine.lookup(601), None);
    assert_eq!(
        engine.round(0),
        Some(Round {
            announcement_id: 501,
            proposal_id: 601,
            peer_id: 1,
            channel_id: 71,
            phase: Phase::Confirming
        })
    );
    assert_eq!(engine.on_selection_or_confirm(notice(801, 1, 601, 71)), Reaction::Dropped);
}

#[test]
fn selection_addressed_to_someone_else_is_dropped() {
    let mut engine = Engine::new(2, Role::CounterProposer);
    engine.propose(501, 1, 601).unwrap();
    assert_eq!(engine.on_selection_or_confirm(notice(800, 1, 602, 71)), Reaction::Dropped);
    assert_eq!(engine.proposal_phase(601), Some(Phase::Proposed));
    assert_eq!(engine.lookup(601), Some(0));
}

#[test]
fn delivered_confirmation_matches_and_the_channel_opens() {
    let mut engine = Engine::new(2, Role::CounterProposer);
    engine.propose(501, 1, 601).unwrap();
    engine.on_selection_or_confirm(notice(800, 1, 601, 71));
    let expected = Channel { channel_id: 71, local_id: 2, remote_id: 1, kind: Role::CounterProposer };
    assert_eq!(engine.confirm(601, true), Some(expected));
    assert_eq!(engine.proposal_phase(601), Some(Phase::Matched));
    assert!(!engine.is_channel_open(71));
    assert_eq!(engine.open_channel(601), Some(expected));
    assert_eq!(engine.proposal_phase(601), Some(Phase::Done));
    assert!(engine.is_channel_open(71));
    assert_eq!(engine.confirm(601, true), None);
}

#[test]
fn failed_confirmation_falls_back_to_proposed_without_retry() {
    let mut engine = Engine::new(2, Role::CounterProposer);
    engine.propose(501, 1, 601).unwrap();
    engine.on_selection_or_confirm(notice(800, 1, 601, 71));
    assert_eq!(engine.confirm(601, false), None);
    assert_eq!(engine.proposal_phase(601), Some(Phase::Proposed));
    assert_eq!(engine.lookup(601), Some(0));
    assert!(!engine.is_channel_open(71));
    assert_eq!(engine.open_channel(601), None);
    assert!(matches!(engine.on_selection_or_confirm(notice(802, 1, 601, 72)), Reaction::Confirm(_)));
    assert_eq!(engine.round(0).unwrap().channel_id, 72);
}

#[test]
fn confirm_without_a_confirmation_under_way_does_nothing() {
    let mut engine = Engine::new(2, Role::CounterProposer);
    engine.propose(501, 1, 601).unwrap();
    assert_eq!(engine.confirm(601, true), None);
    assert_eq!(engine.confirm(602, true), None);
    assert_eq!(engine.confirm(0, true), None);
    assert_eq!(engine.proposal_phase(601), Some(Phase::Proposed));
    assert_eq!(engine.lookup(601), Some(0));
}

#[test]
fn rounds_of_one_engine_do_not_disturb_each_other() {
    let mut engine = Engine::new(1, Role::Announcer);
    engine.announce(offer(), Some(501)).unwrap();
    engine.announce(offer(), Some(502)).unwrap();
    engine.announce(offer(), Some(503)).unwrap();
    assert!(engine.on_proposal_received(&proposal(602, 502, 7)).is_some());
    assert!(engine.on_proposal_received(&proposal(601, 501, 8)).is_some());
    assert!(engine.select(601, Some(71)));
    assert!(engine.select(602, Some(72)));
    assert_eq!(engine.lookup(601), Some(0));
    assert_eq!(engine.lookup(602), Some(1));
    assert!(matches!(engine.on_selection_or_confirm(notice(1, 7, 602, 0)), Reaction::Matched(_)));
    assert_eq!(engine.announcement_phase(501), Some(Phase::AwaitingConfirm));
    assert_eq!(engine.announcement_phase(502), Some(Phase::Matched));
    assert_eq!(engine.announcement_phase(503), Some(Phase::Open));
    assert_eq!(engine.lookup(601), Some(0));
    assert_eq!(engine.open_channel(602).unwrap().remote_id, 7);
    assert!(engine.is_channel_open(72));
    assert!(!engine.is_channel_open(71));
}

#[test]
fn frames_flow_only_on_open_channels() {
    let mut engine = announcer_with_open(501);
    engine.on_proposal_received(&proposal(601, 501, 2));
    engine.select(601, Some(71));
    let channel = Channel { channel_id: 71, local_id: 1, remote_id: 2, kind: Role::Announcer };
    let frame = ChannelFrame {
        frame_id: 0,
        sender_id: 0,
        target_id: 0,
        mbus_id: 71,
        kind: 0,
        info: "data".to_string(),
        payload: "{}".to_string(),
        attachment: Some(vec![1, 2]),
    };
    assert!(!engine.send_frame(channel, frame.clone()));
    engine.on_selection_or_confirm(notice(900, 2, 601, 0));
    assert!(!engine.send_frame(channel, frame.clone()));
    assert_eq!(engine.open_channel(601), Some(channel));
    assert!(engine.send_frame(channel, frame.clone()));
    assert_eq!(engine.take_outbound(channel), vec![frame.clone()]);
    assert_eq!(engine.take_outbound(channel), vec![]);
    let inbound = ChannelFrame { sender_id: 2, ..frame.clone() };
    assert_eq!(engine.on_frame_received(channel, &inbound), Some(Role::Announcer));
    let stranger = ChannelFrame { sender_id: 3, ..frame };
    assert_eq!(engine.on_frame_received(channel, &stranger), None);
}

#[test]
fn engine_finds_the_handle_of_an_open_channel() {
    let mut engine = announcer_with_open(501);
    engine.on_proposal_received(&proposal(601, 501, 2));
    engine.select(601, Some(71));
    engine.on_selection_or_confirm(notice(900, 2, 601, 0));
    assert_eq!(engine.channel(71), None);
    let channel = engine.open_channel(601).unwrap();
    assert_eq!(engine.channel(71), Some(channel));
    assert_eq!(engine.channel(72), None);
}

#[test]
fn two_matches_on_one_channel_share_the_channel() {
    let mut engine = Engine::new(1, Role::Announcer);
    engine.announce(offer(), Some(501)).unwrap();
    engine.announce(offer(), Some(502)).unwrap();
    engine.on_proposal_received(&proposal(601, 501, 2));
    engine.on_proposal_received(&proposal(602, 502, 3));
    engine.select(601, Some(71));
    engine.select(602, Some(71));
    engine.on_selection_or_confirm(notice(900, 2, 601, 0));
    engine.on_selection_or_confirm(notice(901, 3, 602, 0));
    let first = engine.open_channel(601).unwrap();
    let second = engine.open_channel(602).unwrap();
    assert_eq!(first, second);
    assert_eq!(first.remote_id, 2);
    assert_eq!(engine.announcement_phase(501), Some(Phase::Done));
    assert_eq!(engine.announcement_phase(502), Some(Phase::Done));
}

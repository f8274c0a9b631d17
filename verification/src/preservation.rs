//! The invariant of the negotiation state machine is kept by every
//! operation.

use vstd::prelude::*;
use crate::channel::Channel;
use crate::records::{ChannelFrame, Role};
use crate::state::{EngineView, Notice, Phase, Round, Step};

verus! {

impl EngineView {
    /// In a state that meets the invariant, the round that holds a proposal
    /// is the only one.
    pub proof fn lemma_proposal_slot(self, i: int)
        requires
            self.inv(),
            0 <= i < self.rounds.len(),
            self.rounds[i].proposal_id != 0,
        ensures
            self.has_proposal(self.rounds[i].proposal_id),
            self.proposal_slot(self.rounds[i].proposal_id) == i,
    {
        let id = self.rounds[i].proposal_id;
        assert(self.has_proposal(id));
        let s = self.proposal_slot(id);
        assert(0 <= s < self.rounds.len() && self.rounds[s].proposal_id == id);
        if s < i {
            assert(self.rounds[s].proposal_id != self.rounds[i].proposal_id);
        } else if i < s {
            assert(self.rounds[i].proposal_id != self.rounds[s].proposal_id);
        }
    }

    /// An announcer that meets the invariant has one round for an
    /// announcement.
    pub proof fn lemma_announcement_slot(self, i: int)
        requires
            self.inv(),
            self.role == Role::Announcer,
            0 <= i < self.rounds.len(),
        ensures
            self.has_announcement(self.rounds[i].announcement_id),
            self.announcement_slot(self.rounds[i].announcement_id) == i,
    {
        let id = self.rounds[i].announcement_id;
        assert(self.has_announcement(id));
        let s = self.announcement_slot(id);
        assert(0 <= s < self.rounds.len() && self.rounds[s].announcement_id == id);
        if s < i {
            assert(self.rounds[s].announcement_id != self.rounds[i].announcement_id);
        } else if i < s {
            assert(self.rounds[i].announcement_id != self.rounds[s].announcement_id);
        }
    }

    /// The state of an engine that has done nothing meets the invariant.
    pub proof fn lemma_initial_inv(provider_id: u64, role: Role)
        ensures
            EngineView::initial(provider_id, role).inv(),
    {
    }

    /// Announcing keeps the invariant.
    pub proof fn lemma_announce_inv(self, held_id: u64, delivery: Option<u64>)
        requires
            self.inv(),
            self.rounds.len() < usize::MAX,
        ensures
            self.announce(held_id, delivery).inv(),
    {
        let after = self.announce(held_id, delivery);
        if self.announce_outcome(held_id, delivery) is Ok {
            let n = self.rounds.len() as int;
            assert forall|i: int| 0 <= i < n implies after.rounds[i] == self.rounds[i] by {}
            assert(after.ledger_sound());
            assert(after.ledger_complete());
            assert(after.proposals_distinct());
            assert(after.announcements_distinct());
            assert(after.phases_fit());
            assert(after.channels_matched()) by {
                assert forall|c: u64| #[trigger] after.channels.contains_key(c) implies exists|
                    i: int,
                |
                    0 <= i < after.rounds.len() && (#[trigger] after.rounds[i]).channel_id == c
                        && after.rounds[i].phase == Phase::Done by {
                    let i = choose|i: int|
                        0 <= i < self.rounds.len() && (#[trigger] self.rounds[i]).channel_id == c
                            && self.rounds[i].phase == Phase::Done;
                    assert(after.rounds[i] == self.rounds[i]);
                }
            }
        }
    }

    /// Taking up a proposal keeps the invariant.
    pub proof fn lemma_on_proposal_received_inv(
        self,
        proposal_id: u64,
        target_id: u64,
        sender_id: u64,
    )
        requires
            self.inv(),
        ensures
            self.on_proposal_received(proposal_id, target_id, sender_id).inv(),
    {
        let after = self.on_proposal_received(proposal_id, target_id, sender_id);
        if self.takes_proposal(proposal_id, target_id) {
            let i = self.announcement_slot(target_id);
            assert(0 <= i < self.rounds.len());
            assert forall|j: int| 0 <= j < self.rounds.len() && j != i implies after.rounds[j]
                == self.rounds[j] by {}
            assert forall|j: int| 0 <= j < self.rounds.len() implies (
            #[trigger] self.rounds[j]).proposal_id != proposal_id by {}
            assert(!self.ledger.contains_key(proposal_id)) by {
                if self.ledger.contains_key(proposal_id) {
                    assert(self.rounds[self.ledger[proposal_id] as int].proposal_id == proposal_id);
                }
            }
            assert(self.ledger.remove(proposal_id) =~= self.ledger);
            self.lemma_round_changed_inv(i, after);
        }
    }

    /// A state that differs from one that meets the invariant in a single
    /// round meets it too, where the ledger agrees with the new phase of that
    /// round, its proposal stays unique, and it was not done before.
    proof fn lemma_round_changed_inv(self, i: int, after: EngineView)
        requires
            self.inv(),
            0 <= i < self.rounds.len(),
            after.provider_id == self.provider_id,
            after.role == self.role,
            after.channels == self.channels,
            after.rounds == self.rounds.update(i, after.rounds[i]),
            after.rounds.len() == self.rounds.len(),
            after.rounds[i].announcement_id == self.rounds[i].announcement_id,
            after.rounds[i].phase.fits(self.role),
            after.rounds[i].phase != Phase::Open,
            after.rounds[i].proposal_id != 0,
            self.rounds[i].phase != Phase::Done,
            forall|j: int|
                0 <= j < self.rounds.len() && j != i ==> (#[trigger] self.rounds[j]).proposal_id
                    != after.rounds[i].proposal_id,
            after.rounds[i].phase.awaits_notice() ==> after.ledger == self.ledger.insert(
                after.rounds[i].proposal_id,
                i as u64,
            ),
            !after.rounds[i].phase.awaits_notice() ==> after.ledger == self.ledger.remove(
                after.rounds[i].proposal_id,
            ),
            self.rounds[i].proposal_id != 0 ==> self.rounds[i].proposal_id
                == after.rounds[i].proposal_id,
        ensures
            after.inv(),
    {
        let p = after.rounds[i].proposal_id;
        assert forall|j: int| 0 <= j < self.rounds.len() && j != i implies after.rounds[j]
            == self.rounds[j] by {}
        assert(after.ledger_sound()) by {
            assert forall|k: u64| #[trigger] after.ledger.contains_key(k) implies after.ledger[k]
                < after.rounds.len() && after.rounds[after.ledger[k] as int].proposal_id == k
                && after.rounds[after.ledger[k] as int].phase.awaits_notice() by {
                if k != p {
                    assert(self.ledger.contains_key(k));
                    let j = self.ledger[k] as int;
                    assert(self.rounds[j].proposal_id == k);
                    if j == i {
                        assert(self.rounds[i].proposal_id != 0 ==> false);
                        assert(self.rounds[i].phase.awaits_notice());
                        assert(self.rounds[i].phase != Phase::Open);
                    }
                }
            }
        }
        assert(after.ledger_complete()) by {
            assert forall|j: int|
                0 <= j < after.rounds.len() && (
                #[trigger] after.rounds[j]).phase.awaits_notice() implies after.ledger.contains_key(
                after.rounds[j].proposal_id,
            ) && after.ledger[after.rounds[j].proposal_id] == j by {
                if j != i {
                    assert(self.rounds[j].phase.awaits_notice());
                    assert(self.rounds[j].proposal_id != p);
                }
            }
        }
        assert(after.proposals_distinct()) by {
            assert forall|a: int, b: int|
                0 <= a < b < after.rounds.len() && (#[trigger] after.rounds[a]).proposal_id
                    != 0 implies after.rounds[a].proposal_id != (
            #[trigger] after.rounds[b]).proposal_id by {
                if a != i && b != i {
                    assert(self.rounds[a].proposal_id != self.rounds[b].proposal_id);
                } else if a == i {
                    assert(self.rounds[b].proposal_id != p);
                } else {
                    assert(self.rounds[a].proposal_id != p);
                }
            }
            assert forall|j: int| 0 <= j < after.rounds.len() implies ((
            #[trigger] after.rounds[j]).phase == Phase::Open <==> after.rounds[j].proposal_id
                == 0) by {
                if j != i {
                    assert(self.rounds[j] == after.rounds[j]);
                }
            }
        }
        assert(after.announcements_distinct()) by {
            if after.role == Role::Announcer {
                assert forall|a: int, b: int| 0 <= a < b < after.rounds.len() implies (
                #[trigger] after.rounds[a]).announcement_id != (
                #[trigger] after.rounds[b]).announcement_id by {
                    assert(self.rounds[a].announcement_id != self.rounds[b].announcement_id);
                }
            }
        }
        assert(after.phases_fit()) by {
            assert forall|j: int| 0 <= j < after.rounds.len() implies (
            #[trigger] after.rounds[j]).phase.fits(after.role) by {
                if j != i {
                    assert(self.rounds[j].phase.fits(self.role));
                }
            }
        }
        assert(after.channels_matched()) by {
            assert forall|c: u64| #[trigger] after.channels.contains_key(c) implies exists|j: int|
                0 <= j < after.rounds.len() && (#[trigger] after.rounds[j]).channel_id == c
                    && after.rounds[j].phase == Phase::Done by {
                let j = choose|j: int|
                    0 <= j < self.rounds.len() && (#[trigger] self.rounds[j]).channel_id == c
                        && self.rounds[j].phase == Phase::Done;
                assert(j != i);
                assert(after.rounds[j] == self.rounds[j]);
            }
        }
    }

    /// Settling a selection keeps the invariant, whether it is committed or
    /// let go.
    pub proof fn lemma_select_inv(self, proposal_id: u64, outcome: Option<u64>)
        requires
            self.inv(),
        ensures
            self.select(proposal_id, outcome).inv(),
    {
        let after = self.select(proposal_id, outcome);
        if self.selecting(proposal_id) {
            let i = self.proposal_slot(proposal_id);
            assert(0 <= i < self.rounds.len() && self.rounds[i].proposal_id == proposal_id);
            self.lemma_proposal_slot(i);
            assert(self.rounds[i].phase.fits(self.role));
            assert forall|j: int| 0 <= j < self.rounds.len() && j != i implies (
            #[trigger] self.rounds[j]).proposal_id != proposal_id by {
                if j < i {
                    if self.rounds[j].proposal_id != 0 {
                        assert(self.rounds[j].proposal_id != self.rounds[i].proposal_id);
                    }
                } else {
                    assert(self.rounds[i].proposal_id != self.rounds[j].proposal_id);
                }
            }
            if self.selects(proposal_id, outcome) {
                self.lemma_round_changed_inv(i, after);
            } else {
                self.lemma_round_reopened_inv(i, after);
            }
        }
    }

    /// A state that differs from one that meets the invariant in a single
    /// round, which was under evaluation and is open again without proposal,
    /// meets it too.
    proof fn lemma_round_reopened_inv(self, i: int, after: EngineView)
        requires
            self.inv(),
            0 <= i < self.rounds.len(),
            self.rounds[i].phase == Phase::Evaluating,
            after == self.with_round(
                i,
                Round { proposal_id: 0, peer_id: 0, phase: Phase::Open, ..self.rounds[i] },
            ),
        ensures
            after.inv(),
    {
        assert(self.rounds[i].phase.fits(self.role));
        assert forall|j: int| 0 <= j < self.rounds.len() && j != i implies after.rounds[j]
            == self.rounds[j] by {}
        assert(after.ledger_sound()) by {
            assert forall|k: u64| #[trigger] after.ledger.contains_key(k) implies after.ledger[k]
                < after.rounds.len() && after.rounds[after.ledger[k] as int].proposal_id == k
                && after.rounds[after.ledger[k] as int].phase.awaits_notice() by {
                assert(self.ledger.contains_key(k));
                assert(self.ledger[k] as int != i);
            }
        }
        assert(after.ledger_complete()) by {
            assert forall|j: int|
                0 <= j < after.rounds.len() && (
                #[trigger] after.rounds[j]).phase.awaits_notice() implies after.ledger.contains_key(
                after.rounds[j].proposal_id,
            ) && after.ledger[after.rounds[j].proposal_id] == j by {
                assert(self.rounds[j].phase.awaits_notice());
            }
        }
        assert(after.proposals_distinct()) by {
            assert forall|a: int, b: int|
                0 <= a < b < after.rounds.len() && (#[trigger] after.rounds[a]).proposal_id
                    != 0 implies after.rounds[a].proposal_id != (
            #[trigger] after.rounds[b]).proposal_id by {
                if b != i {
                    assert(self.rounds[a].proposal_id != self.rounds[b].proposal_id);
                }
            }
            assert forall|j: int| 0 <= j < after.rounds.len() implies ((
            #[trigger] after.rounds[j]).phase == Phase::Open <==> after.rounds[j].proposal_id
                == 0) by {
                if j != i {
                    assert(self.rounds[j] == after.rounds[j]);
                }
            }
        }
        assert(after.announcements_distinct()) by {
            if after.role == Role::Announcer {
                assert forall|a: int, b: int| 0 <= a < b < after.rounds.len() implies (
                #[trigger] after.rounds[a]).announcement_id != (
                #[trigger] after.rounds[b]).announcement_id by {
                    assert(self.rounds[a].announcement_id != self.rounds[b].announcement_id);
                }
            }
        }
        assert(after.phases_fit()) by {
            assert forall|j: int| 0 <= j < after.rounds.len() implies (
            #[trigger] after.rounds[j]).phase.fits(after.role) by {
                if j != i {
                    assert(self.rounds[j].phase.fits(self.role));
                }
            }
        }
        assert(after.channels_matched()) by {
            assert forall|c: u64| #[trigger] after.channels.contains_key(c) implies exists|j: int|
                0 <= j < after.rounds.len() && (#[trigger] after.rounds[j]).channel_id == c
                    && after.rounds[j].phase == Phase::Done by {
                let j = choose|j: int|
                    0 <= j < self.rounds.len() && (#[trigger] self.rounds[j]).channel_id == c
                        && self.rounds[j].phase == Phase::Done;
                assert(j != i);
                assert(after.rounds[j] == self.rounds[j]);
            }
        }
    }

    /// Recording a sent proposal keeps the invariant.
    pub proof fn lemma_propose_inv(self, target_id: u64, peer_id: u64, outcome: u64)
        requires
            self.inv(),
            self.rounds.len() < usize::MAX,
        ensures
            self.propose(target_id, peer_id, outcome).inv(),
    {
        let after = self.propose(target_id, peer_id, outcome);
        if self.propose_outcome(outcome) is Ok {
            let n = self.rounds.len() as int;
            assert forall|i: int| 0 <= i < n implies after.rounds[i] == self.rounds[i] by {}
            assert forall|j: int| 0 <= j < n implies (#[trigger] self.rounds[j]).proposal_id
                != outcome by {}
            assert(after.ledger_sound()) by {
                assert forall|k: u64| #[trigger] after.ledger.contains_key(k) implies after.ledger[k]
                    < after.rounds.len() && after.rounds[after.ledger[k] as int].proposal_id == k
                    && after.rounds[after.ledger[k] as int].phase.awaits_notice() by {
                    if k != outcome {
                        assert(self.ledger.contains_key(k));
                    }
                }
            }
            assert(after.ledger_complete()) by {
                assert forall|j: int|
                    0 <= j < after.rounds.len() && (
                    #[trigger] after.rounds[j]).phase.awaits_notice() implies after.ledger.contains_key(
                    after.rounds[j].proposal_id,
                ) && after.ledger[after.rounds[j].proposal_id] == j by {
                    if j < n {
                        assert(self.rounds[j].phase.awaits_notice());
                    }
                }
            }
            assert(after.proposals_distinct()) by {
                assert forall|a: int, b: int|
                    0 <= a < b < after.rounds.len() && (#[trigger] after.rounds[a]).proposal_id
                        != 0 implies after.rounds[a].proposal_id != (
                #[trigger] after.rounds[b]).proposal_id by {
                    if b < n {
                        assert(self.rounds[a].proposal_id != self.rounds[b].proposal_id);
                    } else {
                        assert(self.rounds[a].proposal_id != outcome);
                    }
                }
            }
            assert(after.phases_fit());
            assert(after.channels_matched()) by {
                assert forall|c: u64| #[trigger] after.channels.contains_key(c) implies exists|
                    i: int,
                |
                    0 <= i < after.rounds.len() && (#[trigger] after.rounds[i]).channel_id == c
                        && after.rounds[i].phase == Phase::Done by {
                    let i = choose|i: int|
                        0 <= i < self.rounds.len() && (#[trigger] self.rounds[i]).channel_id == c
                            && self.rounds[i].phase == Phase::Done;
                    assert(after.rounds[i] == self.rounds[i]);
                }
            }
        }
    }

    /// Reacting to a selection or confirmation keeps the invariant.
    pub proof fn lemma_on_selection_or_confirm_inv(self, notice: Notice)
        requires
            self.inv(),
        ensures
            self.on_selection_or_confirm(notice).inv(),
    {
        let after = self.on_selection_or_confirm(notice);
        if self.ledger.contains_key(notice.target_id) {
            let i = self.ledger[notice.target_id] as int;
            self.lemma_proposal_slot(i);
            assert(self.rounds[i].phase.fits(self.role));
            assert forall|j: int| 0 <= j < self.rounds.len() && j != i implies (
            #[trigger] self.rounds[j]).proposal_id != notice.target_id by {
                if j < i {
                    if self.rounds[j].proposal_id != 0 {
                        assert(self.rounds[j].proposal_id != self.rounds[i].proposal_id);
                    }
                } else {
                    assert(self.rounds[i].proposal_id != self.rounds[j].proposal_id);
                }
            }
            self.lemma_round_changed_inv(i, after);
        }
    }

    /// Settling a confirmation keeps the invariant.
    pub proof fn lemma_confirm_inv(self, target_id: u64, delivered: bool)
        requires
            self.inv(),
        ensures
            self.confirm(target_id, delivered).inv(),
    {
        let after = self.confirm(target_id, delivered);
        if self.confirming(target_id) {
            let i = self.proposal_slot(target_id);
            assert(0 <= i < self.rounds.len() && self.rounds[i].proposal_id == target_id);
            assert(self.rounds[i].phase.fits(self.role));
            assert(target_id != 0);
            assert forall|j: int| 0 <= j < self.rounds.len() && j != i implies (
            #[trigger] self.rounds[j]).proposal_id != target_id by {
                if j < i {
                    if self.rounds[j].proposal_id != 0 {
                        assert(self.rounds[j].proposal_id != self.rounds[i].proposal_id);
                    }
                } else {
                    assert(self.rounds[i].proposal_id != self.rounds[j].proposal_id);
                }
            }
            if delivered {
                assert(!self.ledger.contains_key(target_id)) by {
                    if self.ledger.contains_key(target_id) {
                        let j = self.ledger[target_id] as int;
                        assert(self.rounds[j].proposal_id == target_id);
                        assert(self.rounds[j].phase.awaits_notice());
                    }
                }
                assert(self.ledger.remove(target_id) =~= self.ledger);
            }
            self.lemma_round_changed_inv(i, after);
        }
    }

    /// Opening the channel of a match keeps the invariant.
    pub proof fn lemma_open_channel_inv(self, proposal_id: u64)
        requires
            self.inv(),
        ensures
            self.open_channel(proposal_id).inv(),
    {
        let after = self.open_channel(proposal_id);
        if self.opens(proposal_id) {
            let i = self.proposal_slot(proposal_id);
            assert(0 <= i < self.rounds.len() && self.rounds[i].proposal_id == proposal_id);
            let c0 = self.rounds[i].channel_id;
            assert forall|j: int| 0 <= j < self.rounds.len() && j != i implies after.rounds[j]
                == self.rounds[j] by {}
            assert(after.ledger_sound()) by {
                assert forall|k: u64| #[trigger] after.ledger.contains_key(k) implies after.ledger[k]
                    < after.rounds.len() && after.rounds[after.ledger[k] as int].proposal_id == k
                    && after.rounds[after.ledger[k] as int].phase.awaits_notice() by {
                    assert(self.ledger.contains_key(k));
                    assert(self.ledger[k] as int != i);
                }
            }
            assert(after.ledger_complete()) by {
                assert forall|j: int|
                    0 <= j < after.rounds.len() && (
                    #[trigger] after.rounds[j]).phase.awaits_notice() implies after.ledger.contains_key(
                    after.rounds[j].proposal_id,
                ) && after.ledger[after.rounds[j].proposal_id] == j by {
                    assert(self.rounds[j].phase.awaits_notice());
                }
            }
            assert(after.proposals_distinct()) by {
                assert forall|a: int, b: int|
                    0 <= a < b < after.rounds.len() && (#[trigger] after.rounds[a]).proposal_id
                        != 0 implies after.rounds[a].proposal_id != (
                #[trigger] after.rounds[b]).proposal_id by {
                    assert(self.rounds[a].proposal_id != self.rounds[b].proposal_id);
                }
                assert forall|j: int| 0 <= j < after.rounds.len() implies ((
                #[trigger] after.rounds[j]).phase == Phase::Open <==> after.rounds[j].proposal_id
                    == 0) by {
                    assert(self.rounds[j].proposal_id == after.rounds[j].proposal_id);
                }
            }
            assert(after.announcements_distinct()) by {
                if after.role == Role::Announcer {
                    assert forall|a: int, b: int| 0 <= a < b < after.rounds.len() implies (
                    #[trigger] after.rounds[a]).announcement_id != (
                    #[trigger] after.rounds[b]).announcement_id by {
                        assert(self.rounds[a].announcement_id != self.rounds[b].announcement_id);
                    }
                }
            }
            assert(after.phases_fit()) by {
                assert forall|j: int| 0 <= j < after.rounds.len() implies (
                #[trigger] after.rounds[j]).phase.fits(after.role) by {
                    assert(self.rounds[j].phase.fits(self.role));
                }
            }
            assert(after.channels_matched()) by {
                assert forall|c: u64| #[trigger] after.channels.contains_key(c) implies (
                after.channels[c].channel.channel_id == c && exists|j: int|
                    0 <= j < after.rounds.len() && (#[trigger] after.rounds[j]).channel_id == c
                        && after.rounds[j].phase == Phase::Done) by {
                    if c == c0 {
                        assert(after.rounds[i].channel_id == c && after.rounds[i].phase
                            == Phase::Done);
                    } else {
                        assert(self.channels.contains_key(c));
                        let j = choose|j: int|
                            0 <= j < self.rounds.len() && (#[trigger] self.rounds[j]).channel_id
                                == c && self.rounds[j].phase == Phase::Done;
                        assert(after.rounds[j] == self.rounds[j]);
                    }
                }
            }
        }
    }

    /// Queueing a frame keeps the invariant.
    pub proof fn lemma_send_frame_inv(self, channel: Channel, frame: ChannelFrame)
        requires
            self.inv(),
        ensures
            self.send_frame(channel, frame).inv(),
    {
        let after = self.send_frame(channel, frame);
        assert forall|c: u64| #[trigger] after.channels.contains_key(c) implies self.channels.contains_key(
            c,
        ) && after.channels[c].channel == self.channels[c].channel by {}
    }

    /// Handing over the queued frames keeps the invariant.
    pub proof fn lemma_take_outbound_inv(self, channel: Channel)
        requires
            self.inv(),
        ensures
            self.take_outbound(channel).inv(),
    {
        let after = self.take_outbound(channel);
        assert forall|c: u64| #[trigger] after.channels.contains_key(c) implies self.channels.contains_key(
            c,
        ) && after.channels[c].channel == self.channels[c].channel by {}
    }

    /// The rounds that an operation looks up are rounds of the state.
    pub proof fn lemma_slots(self, step: Step)
        requires
            self.inv(),
        ensures
            match step {
                Step::ProposalReceived { proposal_id, target_id, sender_id } => self.takes_proposal(
                    proposal_id,
                    target_id,
                ) ==> 0 <= self.announcement_slot(target_id) < self.rounds.len(),
                Step::Select { proposal_id, outcome } => self.selecting(proposal_id) ==> 0
                    <= self.proposal_slot(proposal_id) < self.rounds.len()
                    && self.rounds[self.proposal_slot(proposal_id)].proposal_id == proposal_id,
                Step::Notice { notice } => self.ledger.contains_key(notice.target_id)
                    ==> self.ledger[notice.target_id] < self.rounds.len()
                    && self.rounds[self.ledger[notice.target_id] as int].proposal_id
                    == notice.target_id
                    && self.rounds[self.ledger[notice.target_id] as int].phase.awaits_notice(),
                Step::Confirm { target_id, delivered } => self.confirming(target_id) ==> 0
                    <= self.proposal_slot(target_id) < self.rounds.len()
                    && self.rounds[self.proposal_slot(target_id)].proposal_id == target_id,
                Step::OpenChannel { proposal_id } => self.opens(proposal_id) ==> 0
                    <= self.proposal_slot(proposal_id) < self.rounds.len()
                    && self.rounds[self.proposal_slot(proposal_id)].proposal_id == proposal_id,
                _ => true,
            },
    {
    }

    /// No operation takes an announcement off the record, and none takes a
    /// proposal off it but the settling of a selection, which may let go of
    /// the proposal that it names.
    pub proof fn lemma_next_keeps_records(self, step: Step)
        requires
            self.inv(),
        ensures
            match step {
                Step::Select { proposal_id, outcome } => self.keeps_records_but(
                    self.next(step),
                    proposal_id,
                ),
                _ => self.keeps_records(self.next(step)),
            },
    {
        let after = self.next(step);
        let released: u64 = match step {
            Step::Select { proposal_id, outcome } => proposal_id,
            _ => 0,
        };
        self.lemma_slots(step);
        assert forall|i: int| 0 <= i < self.rounds.len() implies i < after.rounds.len() && (
        #[trigger] after.rounds[i]).announcement_id == self.rounds[i].announcement_id && (
        self.rounds[i].proposal_id != 0 && self.rounds[i].proposal_id != released
            ==> after.rounds[i].proposal_id == self.rounds[i].proposal_id) by {}
        assert forall|id: u64| self.has_announcement(id) implies #[trigger] after.has_announcement(
            id,
        ) by {
            let i = self.announcement_slot(id);
            assert(after.rounds[i].announcement_id == id);
        }
        assert forall|id: u64|
            id != 0 && id != released && self.has_proposal(id) implies #[trigger] after.has_proposal(
            id,
        ) by {
            let i = self.proposal_slot(id);
            assert(after.rounds[i].proposal_id == id);
        }
    }

    /// Every operation keeps the invariant, as long as the rounds can be
    /// counted.
    pub proof fn lemma_next_inv(self, step: Step)
        requires
            self.inv(),
            self.rounds.len() < usize::MAX,
        ensures
            self.next(step).inv(),
    {
        match step {
            Step::Announce { held_id, delivery } => self.lemma_announce_inv(held_id, delivery),
            Step::ProposalReceived { proposal_id, target_id, sender_id } => {
                self.lemma_on_proposal_received_inv(proposal_id, target_id, sender_id)
            },
            Step::Select { proposal_id, outcome } => self.lemma_select_inv(proposal_id, outcome),
            Step::Propose { target_id, peer_id, assigned } => {
                self.lemma_propose_inv(target_id, peer_id, assigned)
            },
            Step::Notice { notice } => self.lemma_on_selection_or_confirm_inv(notice),
            Step::Confirm { target_id, delivered } => self.lemma_confirm_inv(target_id, delivered),
            Step::OpenChannel { proposal_id } => self.lemma_open_channel_inv(proposal_id),
            Step::SendFrame { channel, frame } => self.lemma_send_frame_inv(channel, frame),
            Step::TakeOutbound { channel } => self.lemma_take_outbound_inv(channel),
        }
    }

    /// Once a selection is committed, a confirmation that names the
    /// selected proposal is accepted, and the channel of the round is then to
    /// be opened.
    pub proof fn lemma_selected_opens(self, proposal_id: u64, outcome: Option<u64>, notice: Notice)
        requires
            self.inv(),
            self.selects(proposal_id, outcome),
            notice.target_id == proposal_id,
        ensures
            self.select(proposal_id, outcome).notice_reaction(notice) is Matched,
            self.select(proposal_id, outcome).on_selection_or_confirm(notice).opens(proposal_id),
            self.select(proposal_id, outcome).on_selection_or_confirm(notice).rounds[self.select(
                proposal_id,
                outcome,
            ).on_selection_or_confirm(notice).proposal_slot(proposal_id)].channel_id == outcome->0,
    {
        let i = self.proposal_slot(proposal_id);
        assert(0 <= i < self.rounds.len() && self.rounds[i].proposal_id == proposal_id);
        let selected = self.select(proposal_id, outcome);
        self.lemma_select_inv(proposal_id, outcome);
        let matched = selected.on_selection_or_confirm(notice);
        selected.lemma_on_selection_or_confirm_inv(notice);
        assert(matched.rounds[i].proposal_id == proposal_id);
        matched.lemma_proposal_slot(i);
    }

    /// The channel that is opened for a match is open afterwards, under the
    /// handle that is returned, and is the channel of the matched round.
    pub proof fn lemma_opened_channel(self, proposal_id: u64)
        requires
            self.inv(),
            self.opens(proposal_id),
        ensures
            self.open_channel_outcome(proposal_id) is Some,
            self.open_channel_outcome(proposal_id)->0.channel_id
                == self.rounds[self.proposal_slot(proposal_id)].channel_id,
            self.open_channel(proposal_id).channels.contains_key(
                self.open_channel_outcome(proposal_id)->0.channel_id,
            ),
            self.open_channel(proposal_id).channels[self.open_channel_outcome(
                proposal_id,
            )->0.channel_id].channel == self.open_channel_outcome(proposal_id)->0,
            !self.channels.contains_key(self.rounds[self.proposal_slot(proposal_id)].channel_id)
                ==> self.open_channel_outcome(proposal_id) == Some(
                self.channel_of(self.proposal_slot(proposal_id)),
            ),
    {
    }

    /// After a confirmation was delivered, the channel of its round is to
    /// be opened.
    pub proof fn lemma_confirmed_opens(self, target_id: u64)
        requires
            self.inv(),
            self.confirming(target_id),
        ensures
            self.confirm(target_id, true).opens(target_id),
    {
        let i = self.proposal_slot(target_id);
        assert(0 <= i < self.rounds.len() && self.rounds[i].proposal_id == target_id);
        let after = self.confirm(target_id, true);
        self.lemma_confirm_inv(target_id, true);
        assert(after.rounds[i].proposal_id == target_id);
        after.lemma_proposal_slot(i);
    }
}

} // verus!

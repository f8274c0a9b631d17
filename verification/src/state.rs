//! The negotiation state machine as mathematics: the state of one
//! provider's engine, the effect of each operation on it, and the invariant
//! that every operation keeps.

use vstd::prelude::*;
use crate::channel::{Channel, ChannelState, drained, opened, queued};
use crate::records::{ChannelFrame, Confirmation, Role, Selection};

verus! {

/// Where one negotiation stands.
///
/// An announcer's round goes Open, Evaluating, AwaitingConfirm, Matched,
/// Done; from Evaluating it falls back to Open where the selection could
/// not be sent. A counter-proposer's round starts at Proposed, once its proposal
/// was sent, and goes on to Confirming, Matched, Done; from Confirming it
/// falls back to Proposed where the confirmation could not be sent.
#[derive(Clone, Copy, Debug, PartialEq, Eq, Structural)]
pub enum Phase {
    /// Announced; open to proposals.
    Open,
    /// A proposal was received and is to be selected.
    Evaluating,
    /// The selection was sent; the proposer's confirmation is awaited.
    AwaitingConfirm,
    /// The provider's own proposal was sent; a selection is awaited.
    Proposed,
    /// A selection of the own proposal was seen; the confirmation is being sent.
    Confirming,
    /// Selection and confirmation are both complete.
    Matched,
    /// The data channel of the match is open.
    Done,
}

impl Phase {
    /// The phases in which the ledger holds an entry for the round: a
    /// selection or a confirmation that names the round's proposal is awaited.
    pub open spec fn awaits_notice(self) -> bool {
        self == Phase::AwaitingConfirm || self == Phase::Proposed
    }

    /// The phases that a provider of the given role goes through.
    pub open spec fn fits(self, role: Role) -> bool {
        match role {
            Role::Announcer => self == Phase::Open || self == Phase::Evaluating || self
                == Phase::AwaitingConfirm || self == Phase::Matched || self == Phase::Done,
            Role::CounterProposer => self == Phase::Proposed || self == Phase::Confirming || self
                == Phase::Matched || self == Phase::Done,
        }
    }

    /// The phases of an announcement for which a selection was sent.
    pub open spec fn is_selected(self) -> bool {
        self == Phase::AwaitingConfirm || self == Phase::Matched || self == Phase::Done
    }

    /// The single steps of the two state machines.
    pub open spec fn may_become(self, next: Phase) -> bool {
        ||| self == Phase::Open && next == Phase::Evaluating
        ||| self == Phase::Evaluating && next == Phase::AwaitingConfirm
        ||| self == Phase::Evaluating && next == Phase::Open
        ||| self == Phase::AwaitingConfirm && next == Phase::Matched
        ||| self == Phase::Proposed && next == Phase::Confirming
        ||| self == Phase::Confirming && next == Phase::Matched
        ||| self == Phase::Confirming && next == Phase::Proposed
        ||| self == Phase::Matched && next == Phase::Done
    }
}

/// One negotiation in which the provider takes part.
#[derive(Clone, Copy, Debug, PartialEq, Eq, Structural)]
pub struct Round {
    /// The announcement that is negotiated.
    pub announcement_id: u64,
    /// The proposal that is evaluated or was selected (announcer), or the
    /// provider's own proposal (counter-proposer); 0 while there is none.
    pub proposal_id: u64,
    /// The other provider; 0 while it is not known.
    pub peer_id: u64,
    /// The channel that the broker set up for the pair; 0 while it is not known.
    pub channel_id: u64,
    pub phase: Phase,
}

/// Why an operation of the engine did nothing.
#[derive(Clone, Copy, Debug, PartialEq, Eq, Structural)]
pub enum NegotiationError {
    /// The operation belongs to the other role.
    WrongRole,
    /// The record was announced before: its identifier is set.
    AlreadyAnnounced,
    /// The message did not reach the broker, or the broker assigned no identifier.
    SendFailed,
    /// The identifier that the broker assigned is in use by another round.
    DuplicateId,
}

/// What the engine asks for in reaction to a selection or a confirmation.
#[derive(Clone, Copy, Debug, PartialEq, Eq, Structural)]
pub enum Reaction {
    /// The target is not in the ledger: stale or addressed to someone else.
    Dropped,
    /// The provider's own proposal was selected: send this confirmation.
    Confirm(Confirmation),
    /// The confirmation of a selection was accepted: open this channel.
    Matched(Channel),
}

/// The header of a selection or confirmation as it arrives.
#[derive(Clone, Copy, Debug, PartialEq, Eq, Structural)]
pub struct Notice {
    /// Identifier of the message itself.
    pub id: u64,
    /// Provider that sent it.
    pub sender_id: u64,
    /// The proposal that was selected or is confirmed.
    pub target_id: u64,
    /// Channel that the broker set up for the pair; 0 where the message names none.
    pub channel_id: u64,
}

/// The state of one provider's negotiation engine.
pub ghost struct EngineView {
    pub provider_id: u64,
    pub role: Role,
    /// The negotiations, in the order in which they began.
    pub rounds: Seq<Round>,
    /// Target identifier to the index of the round that awaits it.
    pub ledger: Map<u64, u64>,
    pub channels: Map<u64, ChannelState>,
}

impl EngineView {
    /// Whether some round negotiates the announcement `id`.
    pub open spec fn has_announcement(self, id: u64) -> bool {
        exists|i: int| 0 <= i < self.rounds.len() && (#[trigger] self.rounds[i]).announcement_id == id
    }

    /// The index of a round that negotiates the announcement `id`.
    pub open spec fn announcement_slot(self, id: u64) -> int {
        choose|i: int| 0 <= i < self.rounds.len() && (#[trigger] self.rounds[i]).announcement_id == id
    }

    /// Whether some round holds the proposal `id`.
    pub open spec fn has_proposal(self, id: u64) -> bool {
        exists|i: int| 0 <= i < self.rounds.len() && (#[trigger] self.rounds[i]).proposal_id == id
    }

    /// The index of a round that holds the proposal `id`.
    pub open spec fn proposal_slot(self, id: u64) -> int {
        choose|i: int| 0 <= i < self.rounds.len() && (#[trigger] self.rounds[i]).proposal_id == id
    }

    /// The handle of the channel that belongs to the round at `i`.
    pub open spec fn channel_of(self, i: int) -> Channel {
        Channel {
            channel_id: self.rounds[i].channel_id,
            local_id: self.provider_id,
            remote_id: self.rounds[i].peer_id,
            kind: self.role,
        }
    }

    /// Every ledger entry points at a round that holds the entry's key as its
    /// proposal and awaits a selection or confirmation.
    pub open spec fn ledger_sound(self) -> bool {
        forall|k: u64| #[trigger]
            self.ledger.contains_key(k) ==> self.ledger[k] < self.rounds.len()
                && self.rounds[self.ledger[k] as int].proposal_id == k
                && self.rounds[self.ledger[k] as int].phase.awaits_notice()
    }

    /// Every round that awaits a selection or confirmation has its entry.
    pub open spec fn ledger_complete(self) -> bool {
        forall|i: int|
            0 <= i < self.rounds.len() && (#[trigger] self.rounds[i]).phase.awaits_notice()
                ==> self.ledger.contains_key(self.rounds[i].proposal_id)
                && self.ledger[self.rounds[i].proposal_id] == i
    }

    /// No proposal is held by two rounds, and only an open round holds none.
    pub open spec fn proposals_distinct(self) -> bool {
        &&& forall|i: int, j: int|
            0 <= i < j < self.rounds.len() && (#[trigger] self.rounds[i]).proposal_id != 0
                ==> self.rounds[i].proposal_id != (#[trigger] self.rounds[j]).proposal_id
        &&& forall|i: int|
            0 <= i < self.rounds.len() ==> ((#[trigger] self.rounds[i]).phase == Phase::Open
                <==> self.rounds[i].proposal_id == 0)
    }

    /// An announcer has one round for each announcement.
    pub open spec fn announcements_distinct(self) -> bool {
        self.role == Role::Announcer ==> forall|i: int, j: int|
            0 <= i < j < self.rounds.len() ==> (#[trigger] self.rounds[i]).announcement_id != (
            #[trigger] self.rounds[j]).announcement_id
    }

    /// Every round is in a phase of the provider's role.
    pub open spec fn phases_fit(self) -> bool {
        forall|i: int|
            0 <= i < self.rounds.len() ==> (#[trigger] self.rounds[i]).phase.fits(self.role)
    }

    /// Every open channel belongs to a round that is done: selection and
    /// confirmation were both complete before the channel was opened.
    pub open spec fn channels_matched(self) -> bool {
        forall|c: u64| #[trigger]
            self.channels.contains_key(c) ==> self.channels[c].channel.channel_id == c
                && exists|i: int|
                0 <= i < self.rounds.len() && (#[trigger] self.rounds[i]).channel_id == c
                    && self.rounds[i].phase == Phase::Done
    }

    /// Whether `after` has on record every announcement that this state has
    /// on record, and every proposal but `released`.
    pub open spec fn keeps_records_but(self, after: EngineView, released: u64) -> bool {
        &&& forall|id: u64| self.has_announcement(id) ==> #[trigger] after.has_announcement(id)
        &&& forall|id: u64|
            id != 0 && id != released && self.has_proposal(id) ==> #[trigger] after.has_proposal(
                id,
            )
    }

    /// Whether `after` has on record every announcement and every proposal
    /// that this state has on record.
    pub open spec fn keeps_records(self, after: EngineView) -> bool {
        self.keeps_records_but(after, 0)
    }

    /// What holds of every state that the engine reaches.
    pub open spec fn inv(self) -> bool {
        &&& self.rounds.len() <= usize::MAX
        &&& self.ledger_sound()
        &&& self.ledger_complete()
        &&& self.proposals_distinct()
        &&& self.announcements_distinct()
        &&& self.phases_fit()
        &&& self.channels_matched()
    }

    /// The state of an engine that has done nothing yet.
    pub open spec fn initial(provider_id: u64, role: Role) -> EngineView {
        EngineView {
            provider_id,
            role,
            rounds: Seq::empty(),
            ledger: Map::empty(),
            channels: Map::empty(),
        }
    }

    /// The state with the round at `i` replaced.
    pub open spec fn with_round(self, i: int, round: Round) -> EngineView {
        EngineView { rounds: self.rounds.update(i, round), ..self }
    }

    /// The outcome of announcing a record whose identifier is `held_id`,
    /// after the broker answered with `delivery`.
    pub open spec fn announce_outcome(self, held_id: u64, delivery: Option<u64>) -> Result<
        u64,
        NegotiationError,
    > {
        if self.role != Role::Announcer {
            Err(NegotiationError::WrongRole)
        } else if held_id != 0 {
            Err(NegotiationError::AlreadyAnnounced)
        } else if delivery is None || delivery == Some(0u64) {
            Err(NegotiationError::SendFailed)
        } else if self.has_announcement(delivery->0) {
            Err(NegotiationError::DuplicateId)
        } else {
            Ok(delivery->0)
        }
    }

    /// The state after announcing: one more open round where the broker
    /// assigned an identifier, else unchanged.
    pub open spec fn announce(self, held_id: u64, delivery: Option<u64>) -> EngineView {
        match self.announce_outcome(held_id, delivery) {
            Ok(id) => EngineView {
                rounds: self.rounds.push(
                    Round {
                        announcement_id: id,
                        proposal_id: 0,
                        peer_id: 0,
                        channel_id: 0,
                        phase: Phase::Open,
                    },
                ),
                ..self
            },
            Err(_) => self,
        }
    }

    /// Whether a proposal is taken up: it carries an identifier that no round
    /// holds yet and answers an announcement of this announcer that is open.
    pub open spec fn takes_proposal(self, proposal_id: u64, target_id: u64) -> bool {
        &&& self.role == Role::Announcer
        &&& proposal_id != 0
        &&& !self.has_proposal(proposal_id)
        &&& self.has_announcement(target_id)
        &&& self.rounds[self.announcement_slot(target_id)].phase == Phase::Open
    }

    /// The selection that a received proposal calls for, if it is taken up.
    pub open spec fn proposal_verdict(self, proposal_id: u64, target_id: u64) -> Option<
        Selection,
    > {
        if self.takes_proposal(proposal_id, target_id) {
            Some(Selection { proposal_id, announcement_id: target_id })
        } else {
            None
        }
    }

    /// The state after a proposal was received: where it is taken up, the
    /// answered announcement is under evaluation with that proposal.
    pub open spec fn on_proposal_received(
        self,
        proposal_id: u64,
        target_id: u64,
        sender_id: u64,
    ) -> EngineView {
        if self.takes_proposal(proposal_id, target_id) {
            let i = self.announcement_slot(target_id);
            self.with_round(
                i,
                Round { proposal_id, peer_id: sender_id, phase: Phase::Evaluating, ..self.rounds[i] },
            )
        } else {
            self
        }
    }

    /// Whether the selection of `proposal_id` is under way: the proposal is
    /// under evaluation.
    pub open spec fn selecting(self, proposal_id: u64) -> bool {
        &&& proposal_id != 0
        &&& self.has_proposal(proposal_id)
        &&& self.rounds[self.proposal_slot(proposal_id)].phase == Phase::Evaluating
    }

    /// Whether the selection of `proposal_id` is committed: the proposal is
    /// under evaluation and the broker answered the send with a channel.
    pub open spec fn selects(self, proposal_id: u64, outcome: Option<u64>) -> bool {
        &&& self.selecting(proposal_id)
        &&& outcome is Some
        &&& outcome != Some(0u64)
    }

    /// The state after the selection of `proposal_id` was sent with the
    /// given outcome. Where it is committed, the round awaits the
    /// confirmation and the ledger holds the proposal. Where the proposal was
    /// under evaluation and the send failed, the proposal is let go and the
    /// announcement is open again, to whatever proposal comes next. Else
    /// unchanged.
    pub open spec fn select(self, proposal_id: u64, outcome: Option<u64>) -> EngineView {
        if self.selects(proposal_id, outcome) {
            let i = self.proposal_slot(proposal_id);
            EngineView {
                rounds: self.rounds.update(
                    i,
                    Round {
                        channel_id: outcome->0,
                        phase: Phase::AwaitingConfirm,
                        ..self.rounds[i]
                    },
                ),
                ledger: self.ledger.insert(proposal_id, i as u64),
                ..self
            }
        } else if self.selecting(proposal_id) {
            let i = self.proposal_slot(proposal_id);
            self.with_round(
                i,
                Round { proposal_id: 0, peer_id: 0, phase: Phase::Open, ..self.rounds[i] },
            )
        } else {
            self
        }
    }

    /// The outcome of sending a proposal, after the broker answered the send
    /// with `outcome`: the identifier it assigned, or 0 for failure.
    pub open spec fn propose_outcome(self, outcome: u64) -> Result<u64, NegotiationError> {
        if self.role != Role::CounterProposer {
            Err(NegotiationError::WrongRole)
        } else if outcome == 0 {
            Err(NegotiationError::SendFailed)
        } else if self.has_proposal(outcome) {
            Err(NegotiationError::DuplicateId)
        } else {
            Ok(outcome)
        }
    }

    /// The state after a proposal in answer to `target_id` was sent: where
    /// the broker assigned it an identifier, one more round that awaits the
    /// selection, with its ledger entry; else unchanged.
    pub open spec fn propose(self, target_id: u64, peer_id: u64, outcome: u64) -> EngineView {
        match self.propose_outcome(outcome) {
            Ok(id) => EngineView {
                rounds: self.rounds.push(
                    Round {
                        announcement_id: target_id,
                        proposal_id: id,
                        peer_id,
                        channel_id: 0,
                        phase: Phase::Proposed,
                    },
                ),
                ledger: self.ledger.insert(id, self.rounds.len() as u64),
                ..self
            },
            Err(_) => self,
        }
    }

    /// The reaction to a selection or confirmation: dropped unless the
    /// ledger holds its target.
    pub open spec fn notice_reaction(self, notice: Notice) -> Reaction {
        if self.ledger.contains_key(notice.target_id) {
            let i = self.ledger[notice.target_id] as int;
            if self.rounds[i].phase == Phase::AwaitingConfirm {
                Reaction::Matched(self.channel_of(i))
            } else {
                Reaction::Confirm(Confirmation { id: notice.id, target_id: notice.target_id })
            }
        } else {
            Reaction::Dropped
        }
    }

    /// The state after a selection or confirmation arrived. Where the
    /// ledger holds its target, the entry is consumed: an announcer's round
    /// is matched, a counter-proposer's round is confirming with the peer and
    /// channel that the selection names. Else unchanged.
    pub open spec fn on_selection_or_confirm(self, notice: Notice) -> EngineView {
        if self.ledger.contains_key(notice.target_id) {
            let i = self.ledger[notice.target_id] as int;
            let round = self.rounds[i];
            EngineView {
                rounds: self.rounds.update(
                    i,
                    if round.phase == Phase::AwaitingConfirm {
                        Round { phase: Phase::Matched, ..round }
                    } else {
                        Round {
                            peer_id: notice.sender_id,
                            channel_id: notice.channel_id,
                            phase: Phase::Confirming,
                            ..round
                        }
                    },
                ),
                ledger: self.ledger.remove(notice.target_id),
                ..self
            }
        } else {
            self
        }
    }

    /// Whether a confirmation for `target_id` is under way.
    pub open spec fn confirming(self, target_id: u64) -> bool {
        &&& self.has_proposal(target_id)
        &&& self.rounds[self.proposal_slot(target_id)].phase == Phase::Confirming
    }

    /// The channel to open after the confirmation for `target_id` was sent:
    /// none unless that confirmation was under way and was delivered.
    pub open spec fn confirm_outcome(self, target_id: u64, delivered: bool) -> Option<Channel> {
        if self.confirming(target_id) && delivered {
            Some(self.channel_of(self.proposal_slot(target_id)))
        } else {
            None
        }
    }

    /// The state after the confirmation for `target_id` was sent: matched
    /// where it was delivered; back to awaiting a selection, with the ledger
    /// entry restored, where it was not.
    pub open spec fn confirm(self, target_id: u64, delivered: bool) -> EngineView {
        if self.confirming(target_id) {
            let i = self.proposal_slot(target_id);
            if delivered {
                self.with_round(i, Round { phase: Phase::Matched, ..self.rounds[i] })
            } else {
                EngineView {
                    rounds: self.rounds.update(
                        i,
                        Round { phase: Phase::Proposed, ..self.rounds[i] },
                    ),
                    ledger: self.ledger.insert(target_id, i as u64),
                    ..self
                }
            }
        } else {
            self
        }
    }

    /// Whether the round of `proposal_id` is matched and its channel is
    /// still to be opened.
    pub open spec fn opens(self, proposal_id: u64) -> bool {
        &&& proposal_id != 0
        &&& self.has_proposal(proposal_id)
        &&& self.rounds[self.proposal_slot(proposal_id)].phase == Phase::Matched
    }

    /// The state after the channel of the match on `proposal_id` was asked
    /// for: where the round is matched, its channel is open and the round is
    /// done; else unchanged.
    pub open spec fn open_channel(self, proposal_id: u64) -> EngineView {
        if self.opens(proposal_id) {
            let i = self.proposal_slot(proposal_id);
            EngineView {
                rounds: self.rounds.update(i, Round { phase: Phase::Done, ..self.rounds[i] }),
                channels: opened(
                    self.channels,
                    self.role,
                    self.rounds[i].channel_id,
                    self.provider_id,
                    self.rounds[i].peer_id,
                ),
                ..self
            }
        } else {
            self
        }
    }

    /// The handle of the channel that is open after the channel of the match
    /// on `proposal_id` was asked for; none where that round is not matched.
    pub open spec fn open_channel_outcome(self, proposal_id: u64) -> Option<Channel> {
        if self.opens(proposal_id) {
            Some(
                self.open_channel(
                    proposal_id,
                ).channels[self.rounds[self.proposal_slot(proposal_id)].channel_id].channel,
            )
        } else {
            None
        }
    }

    /// The state after `frame` was offered for delivery on `channel`.
    pub open spec fn send_frame(self, channel: Channel, frame: ChannelFrame) -> EngineView {
        EngineView { channels: queued(self.channels, channel, frame), ..self }
    }

    /// The state after the frames that wait on `channel` were handed over.
    pub open spec fn take_outbound(self, channel: Channel) -> EngineView {
        EngineView { channels: drained(self.channels, channel), ..self }
    }
}

/// One operation of the engine, with what it is given.
pub ghost enum Step {
    Announce { held_id: u64, delivery: Option<u64> },
    ProposalReceived { proposal_id: u64, target_id: u64, sender_id: u64 },
    Select { proposal_id: u64, outcome: Option<u64> },
    Propose { target_id: u64, peer_id: u64, assigned: u64 },
    Notice { notice: Notice },
    Confirm { target_id: u64, delivered: bool },
    OpenChannel { proposal_id: u64 },
    SendFrame { channel: Channel, frame: ChannelFrame },
    TakeOutbound { channel: Channel },
}

impl EngineView {
    /// The state after one operation.
    pub open spec fn next(self, step: Step) -> EngineView {
        match step {
            Step::Announce { held_id, delivery } => self.announce(held_id, delivery),
            Step::ProposalReceived { proposal_id, target_id, sender_id } => {
                self.on_proposal_received(proposal_id, target_id, sender_id)
            },
            Step::Select { proposal_id, outcome } => self.select(proposal_id, outcome),
            Step::Propose { target_id, peer_id, assigned } => {
                self.propose(target_id, peer_id, assigned)
            },
            Step::Notice { notice } => self.on_selection_or_confirm(notice),
            Step::Confirm { target_id, delivered } => self.confirm(target_id, delivered),
            Step::OpenChannel { proposal_id } => self.open_channel(proposal_id),
            Step::SendFrame { channel, frame } => self.send_frame(channel, frame),
            Step::TakeOutbound { channel } => self.take_outbound(channel),
        }
    }
}

} // verus!

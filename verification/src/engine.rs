//! The negotiation engine: drives one provider's role through announce,
//! propose, select and confirm, and opens the data channel of each match.
//!
//! The engine sends nothing itself. An operation that depends on a send
//! takes the outcome of that send as an argument: whoever runs the engine
//! performs the send first, and the engine commits the transition only for
//! an outcome that reports success.

use vstd::prelude::*;
use crate::channel::{Channel, ChannelManager, receivable, waiting};
use crate::ledger::Ledger;
use crate::records::{Announcement, ChannelFrame, Confirmation, Proposal, Role, Selection};
use crate::state::{EngineView, NegotiationError, Notice, Phase, Reaction, Round, Step};

verus! {

/// The identifier under which an announcement is on record, from the
/// outcome of announcing it.
pub open spec fn assigned(outcome: Result<Announcement, NegotiationError>) -> Result<
    u64,
    NegotiationError,
> {
    match outcome {
        Ok(announced) => Ok(announced.id),
        Err(error) => Err(error),
    }
}

/// The negotiation state of one provider.
pub struct Engine {
    provider_id: u64,
    role: Role,
    rounds: Vec<Round>,
    ledger: Ledger,
    channels: ChannelManager,
}

impl Engine {
    /// The engine's state.
    pub closed spec fn view(&self) -> EngineView {
        EngineView {
            provider_id: self.provider_id,
            role: self.role,
            rounds: self.rounds@,
            ledger: self.ledger@,
            channels: self.channels@,
        }
    }

    /// The engine's internal invariant.
    pub closed spec fn wf(&self) -> bool {
        &&& self.ledger.wf()
        &&& self.channels.wf()
        &&& self.channels.kind() == self.role
        &&& self@.inv()
    }

    /// The state of a well-formed engine meets the invariant of the state
    /// machine.
    pub proof fn lemma_wf_inv(&self)
        requires
            self.wf(),
        ensures
            self@.inv(),
    {
    }

    /// An engine for the provider `provider_id` in the given role, with no
    /// negotiation under way.
    pub fn new(provider_id: u64, role: Role) -> (r: Engine)
        ensures
            r.wf(),
            r@ == EngineView::initial(provider_id, role),
    {
        Engine {
            provider_id,
            role,
            rounds: Vec::new(),
            ledger: Ledger::new(),
            channels: ChannelManager::new(role),
        }
    }

    /// The provider that this engine belongs to.
    pub fn provider_id(&self) -> (r: u64)
        ensures
            r == self@.provider_id,
    {
        self.provider_id
    }

    /// The role that this engine drives.
    pub fn role(&self) -> (r: Role)
        ensures
            r == self@.role,
    {
        self.role
    }

    /// The number of negotiations begun so far.
    pub fn round_count(&self) -> (r: usize)
        ensures
            r == self@.rounds.len(),
    {
        self.rounds.len()
    }

    /// The negotiation at position `index`, in the order in which they began.
    pub fn round(&self, index: usize) -> (r: Option<Round>)
        ensures
            r == if index < self@.rounds.len() {
                Some(self@.rounds[index as int])
            } else {
                None
            },
    {
        if index < self.rounds.len() {
            Some(self.rounds[index])
        } else {
            None
        }
    }

    /// The index that the ledger holds under `target_id`.
    pub fn lookup(&self, target_id: u64) -> (r: Option<u64>)
        requires
            self.wf(),
        ensures
            r == if self@.ledger.contains_key(target_id) {
                Some(self@.ledger[target_id])
            } else {
                None
            },
    {
        self.ledger.lookup(target_id)
    }

    /// Whether the channel `channel_id` is open.
    pub fn is_channel_open(&self, channel_id: u64) -> (r: bool)
        requires
            self.wf(),
        ensures
            r == self@.channels.contains_key(channel_id),
    {
        self.channels.is_open(channel_id)
    }

    /// The handle of the open channel `channel_id`, or `None` where it is
    /// not open.
    pub fn channel(&self, channel_id: u64) -> (r: Option<Channel>)
        requires
            self.wf(),
        ensures
            r == if self@.channels.contains_key(channel_id) {
                Some(self@.channels[channel_id].channel)
            } else {
                None
            },
    {
        self.channels.channel(channel_id)
    }

    /// The position of a round that negotiates the announcement `id`.
    fn find_announcement(&self, id: u64) -> (r: Option<usize>)
        ensures
            match r {
                Some(i) => i < self@.rounds.len() && self@.rounds[i as int].announcement_id == id,
                None => !self@.has_announcement(id),
            },
    {
        let mut i: usize = 0;
        while i < self.rounds.len()
            invariant
                i <= self.rounds@.len(),
                forall|j: int| 0 <= j < i ==> (#[trigger] self.rounds@[j]).announcement_id != id,
            decreases self.rounds@.len() - i,
        {
            if self.rounds[i].announcement_id == id {
                return Some(i);
            }
            i += 1;
        }
        None
    }

    /// The position of a round that holds the proposal `id`.
    fn find_proposal(&self, id: u64) -> (r: Option<usize>)
        ensures
            match r {
                Some(i) => i < self@.rounds.len() && self@.rounds[i as int].proposal_id == id,
                None => !self@.has_proposal(id),
            },
    {
        let mut i: usize = 0;
        while i < self.rounds.len()
            invariant
                i <= self.rounds@.len(),
                forall|j: int| 0 <= j < i ==> (#[trigger] self.rounds@[j]).proposal_id != id,
            decreases self.rounds@.len() - i,
        {
            if self.rounds[i].proposal_id == id {
                return Some(i);
            }
            i += 1;
        }
        None
    }

    /// The phase of the announcement `id` of this announcer; `None` where
    /// it has no such announcement on record or is no announcer.
    pub fn announcement_phase(&self, id: u64) -> (r: Option<Phase>)
        requires
            self.wf(),
        ensures
            r == if self@.role == Role::Announcer && self@.has_announcement(id) {
                Some(self@.rounds[self@.announcement_slot(id)].phase)
            } else {
                None
            },
    {
        if self.role != Role::Announcer {
            return None;
        }
        match self.find_announcement(id) {
            Some(i) => {
                proof {
                    self@.lemma_announcement_slot(i as int);
                }
                Some(self.rounds[i].phase)
            },
            None => None,
        }
    }

    /// The phase of the round that holds the proposal `id`; `None` where
    /// `id` is 0 or no round holds it.
    pub fn proposal_phase(&self, id: u64) -> (r: Option<Phase>)
        requires
            self.wf(),
        ensures
            r == if id != 0 && self@.has_proposal(id) {
                Some(self@.rounds[self@.proposal_slot(id)].phase)
            } else {
                None
            },
    {
        if id == 0 {
            return None;
        }
        match self.find_proposal(id) {
            Some(i) => {
                proof {
                    self@.lemma_proposal_slot(i as int);
                }
                Some(self.rounds[i].phase)
            },
            None => None,
        }
    }

    /// Commits an announcement after it was handed to the broker.
    ///
    /// `delivery` is the identifier that the broker assigned, or `None`
    /// where the send failed. On success the announcement is on record as
    /// open and is returned with its identifier. On failure the record is
    /// discarded and the state is unchanged; nothing is retried.
    pub fn announce(&mut self, announcement: Announcement, delivery: Option<u64>) -> (r: Result<
        Announcement,
        NegotiationError,
    >)
        requires
            old(self).wf(),
        ensures
            final(self).wf(),
            old(self)@.keeps_records(final(self)@),
            final(self)@ == old(self)@.announce(announcement.id, delivery),
            assigned(r) == old(self)@.announce_outcome(announcement.id, delivery),
            r matches Ok(announced) ==> announced == (Announcement {
                id: announced.id,
                ..announcement
            }) && final(self)@.has_announcement(announced.id),
    {
        proof {
            old(self)@.lemma_next_keeps_records(Step::Announce { held_id: announcement.id, delivery });
        }
        if self.role != Role::Announcer {
            return Err(NegotiationError::WrongRole);
        }
        if announcement.id != 0 {
            return Err(NegotiationError::AlreadyAnnounced);
        }
        let id = match delivery {
            Some(id) => id,
            None => {
                return Err(NegotiationError::SendFailed);
            },
        };
        if id == 0 {
            return Err(NegotiationError::SendFailed);
        }
        if self.find_announcement(id).is_some() {
            return Err(NegotiationError::DuplicateId);
        }
        self.rounds.push(
            Round { announcement_id: id, proposal_id: 0, peer_id: 0, channel_id: 0, phase: Phase::Open },
        );
        proof {
            assert(self.rounds@.len() == self.rounds.len());
            old(self)@.lemma_announce_inv(announcement.id, delivery);
            assert(self.rounds@[self.rounds@.len() - 1].announcement_id == id);
        }
        let mut announced = announcement;
        announced.id = id;
        Ok(announced)
    }

    /// Takes up a proposal that arrived.
    ///
    /// The proposal is taken up where it answers an announcement of this
    /// announcer that is open and carries an identifier that no round holds.
    /// The announcement is then under evaluation and the selection to send is
    /// returned: the first proposal wins. Any other proposal is ignored and
    /// changes nothing.
    pub fn on_proposal_received(&mut self, proposal: &Proposal) -> (r: Option<Selection>)
        requires
            old(self).wf(),
        ensures
            final(self).wf(),
            old(self)@.keeps_records(final(self)@),
            final(self)@ == old(self)@.on_proposal_received(
                proposal.id,
                proposal.target_id,
                proposal.sender_id,
            ),
            r == old(self)@.proposal_verdict(proposal.id, proposal.target_id),
            r is Some ==> final(self)@.has_proposal(proposal.id),
    {
        proof {
            old(self)@.lemma_next_keeps_records(Step::ProposalReceived {
                    proposal_id: proposal.id,
                    target_id: proposal.target_id,
                    sender_id: proposal.sender_id,
                });
        }
        if self.role != Role::Announcer || proposal.id == 0 {
            return None;
        }
        if self.find_proposal(proposal.id).is_some() {
            return None;
        }
        match self.find_announcement(proposal.target_id) {
            Some(i) => {
                proof {
                    self@.lemma_announcement_slot(i as int);
                }
                let round = self.rounds[i];
                if round.phase == Phase::Open {
                    self.rounds.set(
                        i,
                        Round {
                            announcement_id: round.announcement_id,
                            proposal_id: proposal.id,
                            peer_id: proposal.sender_id,
                            channel_id: round.channel_id,
                            phase: Phase::Evaluating,
                        },
                    );
                    proof {
                        old(self)@.lemma_on_proposal_received_inv(
                            proposal.id,
                            proposal.target_id,
                            proposal.sender_id,
                        );
                        assert(self.rounds@[i as int].proposal_id == proposal.id);
                    }
                    Some(Selection { proposal_id: proposal.id, announcement_id: proposal.target_id })
                } else {
                    None
                }
            },
            None => None,
        }
    }

    /// Settles the selection of a proposal after it was handed to the broker.
    ///
    /// `outcome` is the channel that the broker set up for the pair, or
    /// `None` or 0 where the send failed. Returns whether the selection is
    /// committed: the proposal was under evaluation and the send succeeded.
    /// The announcement then awaits the confirmation and the ledger holds
    /// the proposal. Where the proposal was under evaluation and the send
    /// failed, the proposal is let go and the announcement is open again:
    /// nothing is retried, and the next proposal for it is taken up. In any
    /// other case nothing changes: a selection that was committed before is
    /// not committed again.
    pub fn select(&mut self, proposal_id: u64, outcome: Option<u64>) -> (r: bool)
        requires
            old(self).wf(),
        ensures
            final(self).wf(),
            old(self)@.keeps_records_but(final(self)@, proposal_id),
            r == old(self)@.selects(proposal_id, outcome),
            final(self)@ == old(self)@.select(proposal_id, outcome),
            r ==> final(self)@.has_proposal(proposal_id),
    {
        proof {
            old(self)@.lemma_next_keeps_records(Step::Select { proposal_id, outcome });
        }
        if proposal_id == 0 {
            return false;
        }
        match self.find_proposal(proposal_id) {
            Some(i) => {
                proof {
                    self@.lemma_proposal_slot(i as int);
                }
                let round = self.rounds[i];
                if round.phase != Phase::Evaluating {
                    return false;
                }
                let channel_id = match outcome {
                    Some(channel_id) => channel_id,
                    None => 0,
                };
                if channel_id != 0 {
                    self.rounds.set(
                        i,
                        Round {
                            announcement_id: round.announcement_id,
                            proposal_id: round.proposal_id,
                            peer_id: round.peer_id,
                            channel_id,
                            phase: Phase::AwaitingConfirm,
                        },
                    );
                    self.ledger.record(proposal_id, i as u64);
                    proof {
                        old(self)@.lemma_select_inv(proposal_id, outcome);
                        assert(self.rounds@[i as int].proposal_id == proposal_id);
                    }
                    true
                } else {
                    self.rounds.set(
                        i,
                        Round {
                            announcement_id: round.announcement_id,
                            proposal_id: 0,
                            peer_id: 0,
                            channel_id: round.channel_id,
                            phase: Phase::Open,
                        },
                    );
                    proof {
                        old(self)@.lemma_select_inv(proposal_id, outcome);
                    }
                    false
                }
            },
            None => false,
        }
    }

    /// Records a proposal of this provider after it was handed to the broker.
    ///
    /// `target_id` is the announcement that is answered, `peer_id` its
    /// announcer, and `outcome` the identifier that the broker assigned to
    /// the proposal, or 0 where the send failed. On success the proposal
    /// awaits its selection and the ledger holds it. On failure the state is
    /// unchanged; nothing is retried.
    pub fn propose(&mut self, target_id: u64, peer_id: u64, outcome: u64) -> (r: Result<
        u64,
        NegotiationError,
    >)
        requires
            old(self).wf(),
        ensures
            final(self).wf(),
            old(self)@.keeps_records(final(self)@),
            r == old(self)@.propose_outcome(outcome),
            final(self)@ == old(self)@.propose(target_id, peer_id, outcome),
            r is Ok ==> final(self)@.has_proposal(outcome),
    {
        proof {
            old(self)@.lemma_next_keeps_records(Step::Propose { target_id, peer_id, assigned: outcome });
        }
        if self.role != Role::CounterProposer {
            return Err(NegotiationError::WrongRole);
        }
        if outcome == 0 {
            return Err(NegotiationError::SendFailed);
        }
        if self.find_proposal(outcome).is_some() {
            return Err(NegotiationError::DuplicateId);
        }
        let index = self.rounds.len();
        self.rounds.push(
            Round {
                announcement_id: target_id,
                proposal_id: outcome,
                peer_id,
                channel_id: 0,
                phase: Phase::Proposed,
            },
        );
        self.ledger.record(outcome, index as u64);
        proof {
            assert(self.rounds@.len() == self.rounds.len());
            old(self)@.lemma_propose_inv(target_id, peer_id, outcome);
            assert(self.rounds@[index as int].proposal_id == outcome);
        }
        Ok(outcome)
    }

    /// Reacts to a selection or a confirmation that arrived.
    ///
    /// The message is recognised if and only if the ledger holds its target;
    /// any other message is dropped and changes nothing. A recognised message
    /// consumes the ledger entry. For an announcer it is the confirmation of
    /// its selection: the round is matched and the channel to open is
    /// returned. For a counter-proposer it is the selection of its proposal:
    /// the round is confirming and the confirmation to send is returned.
    pub fn on_selection_or_confirm(&mut self, notice: Notice) -> (r: Reaction)
        requires
            old(self).wf(),
        ensures
            final(self).wf(),
            old(self)@.keeps_records(final(self)@),
            r == old(self)@.notice_reaction(notice),
            final(self)@ == old(self)@.on_selection_or_confirm(notice),
            !(r is Dropped) ==> final(self)@.has_proposal(notice.target_id),
    {
        proof {
            old(self)@.lemma_next_keeps_records(Step::Notice { notice });
        }
        match self.ledger.lookup(notice.target_id) {
            Some(index) => {
                let i = index as usize;
                let round = self.rounds[i];
                let reaction = if round.phase == Phase::AwaitingConfirm {
                    self.rounds.set(
                        i,
                        Round {
                            announcement_id: round.announcement_id,
                            proposal_id: round.proposal_id,
                            peer_id: round.peer_id,
                            channel_id: round.channel_id,
                            phase: Phase::Matched,
                        },
                    );
                    Reaction::Matched(
                        Channel {
                            channel_id: round.channel_id,
                            local_id: self.provider_id,
                            remote_id: round.peer_id,
                            kind: self.role,
                        },
                    )
                } else {
                    self.rounds.set(
                        i,
                        Round {
                            announcement_id: round.announcement_id,
                            proposal_id: round.proposal_id,
                            peer_id: notice.sender_id,
                            channel_id: notice.channel_id,
                            phase: Phase::Confirming,
                        },
                    );
                    Reaction::Confirm(Confirmation { id: notice.id, target_id: notice.target_id })
                };
                self.ledger.remove(notice.target_id);
                proof {
                    old(self)@.lemma_on_selection_or_confirm_inv(notice);
                }
                reaction
            },
            None => Reaction::Dropped,
        }
    }

    /// Settles the confirmation for `target_id` after it was handed to the
    /// broker.
    ///
    /// Where that confirmation was under way and `delivered` reports
    /// success, the round is matched and the channel to open is returned.
    /// Where it was not delivered, the round is back to awaiting a selection,
    /// with its ledger entry; nothing is retried. Where no confirmation for
    /// `target_id` is under way, nothing changes.
    pub fn confirm(&mut self, target_id: u64, delivered: bool) -> (r: Option<Channel>)
        requires
            old(self).wf(),
        ensures
            final(self).wf(),
            old(self)@.keeps_records(final(self)@),
            r == old(self)@.confirm_outcome(target_id, delivered),
            final(self)@ == old(self)@.confirm(target_id, delivered),
            old(self)@.confirming(target_id) ==> final(self)@.has_proposal(target_id),
    {
        proof {
            old(self)@.lemma_next_keeps_records(Step::Confirm { target_id, delivered });
        }
        match self.find_proposal(target_id) {
            Some(i) => {
                let round = self.rounds[i];
                if round.phase == Phase::Confirming {
                    proof {
                        self@.lemma_proposal_slot(i as int);
                    }
                    if delivered {
                        self.rounds.set(
                            i,
                            Round {
                                announcement_id: round.announcement_id,
                                proposal_id: round.proposal_id,
                                peer_id: round.peer_id,
                                channel_id: round.channel_id,
                                phase: Phase::Matched,
                            },
                        );
                        proof {
                            old(self)@.lemma_confirm_inv(target_id, delivered);
                        }
                        Some(
                            Channel {
                                channel_id: round.channel_id,
                                local_id: self.provider_id,
                                remote_id: round.peer_id,
                                kind: self.role,
                            },
                        )
                    } else {
                        self.rounds.set(
                            i,
                            Round {
                                announcement_id: round.announcement_id,
                                proposal_id: round.proposal_id,
                                peer_id: round.peer_id,
                                channel_id: round.channel_id,
                                phase: Phase::Proposed,
                            },
                        );
                        self.ledger.record(target_id, i as u64);
                        proof {
                            old(self)@.lemma_confirm_inv(target_id, delivered);
                        }
                        None
                    }
                } else {
                    proof {
                        if target_id != 0 {
                            self@.lemma_proposal_slot(i as int);
                        }
                    }
                    None
                }
            },
            None => None,
        }
    }

    /// Opens the data channel of the match on `proposal_id`.
    ///
    /// Where the round of that proposal is matched, its channel is opened,
    /// the round is done, and the handle of the channel is returned; where
    /// the channel was open already it is that channel's handle. Where the
    /// round is not matched, no channel is opened and nothing changes.
    pub fn open_channel(&mut self, proposal_id: u64) -> (r: Option<Channel>)
        requires
            old(self).wf(),
        ensures
            final(self).wf(),
            old(self)@.keeps_records(final(self)@),
            r == old(self)@.open_channel_outcome(proposal_id),
            final(self)@ == old(self)@.open_channel(proposal_id),
            r is Some ==> final(self)@.has_proposal(proposal_id),
            match r {
                Some(channel) => final(self)@.channels.contains_key(channel.channel_id)
                    && final(self)@.channels[channel.channel_id].channel == channel,
                None => final(self)@ == old(self)@,
            },
    {
        proof {
            old(self)@.lemma_next_keeps_records(Step::OpenChannel { proposal_id });
        }
        if proposal_id == 0 {
            return None;
        }
        match self.find_proposal(proposal_id) {
            Some(i) => {
                proof {
                    self@.lemma_proposal_slot(i as int);
                }
                let round = self.rounds[i];
                if round.phase == Phase::Matched {
                    self.rounds.set(
                        i,
                        Round {
                            announcement_id: round.announcement_id,
                            proposal_id: round.proposal_id,
                            peer_id: round.peer_id,
                            channel_id: round.channel_id,
                            phase: Phase::Done,
                        },
                    );
                    let channel = self.channels.open(
                        round.channel_id,
                        self.provider_id,
                        round.peer_id,
                    );
                    proof {
                        old(self)@.lemma_open_channel_inv(proposal_id);
                        old(self)@.lemma_opened_channel(proposal_id);
                    }
                    Some(channel)
                } else {
                    None
                }
            },
            None => None,
        }
    }

    /// Queues `frame` for delivery on `channel` and says whether it did; the
    /// caller does not wait for delivery. A frame for a channel that is not
    /// open under that handle, or that names another channel, is refused.
    pub fn send_frame(&mut self, channel: Channel, frame: ChannelFrame) -> (r: bool)
        requires
            old(self).wf(),
        ensures
            final(self).wf(),
            old(self)@.keeps_records(final(self)@),
            r == crate::channel::sendable(old(self)@.channels, channel, frame),
            final(self)@ == old(self)@.send_frame(channel, frame),
    {
        proof {
            old(self)@.lemma_next_keeps_records(Step::SendFrame { channel, frame });
        }
        let queued = self.channels.send(channel, frame);
        proof {
            old(self)@.lemma_send_frame_inv(channel, frame);
        }
        queued
    }

    /// Hands over the frames that wait on `channel`, oldest first, for the
    /// transport to deliver, and leaves the channel's queue empty.
    pub fn take_outbound(&mut self, channel: Channel) -> (r: Vec<ChannelFrame>)
        requires
            old(self).wf(),
        ensures
            final(self).wf(),
            old(self)@.keeps_records(final(self)@),
            r@ == waiting(old(self)@.channels, channel),
            final(self)@ == old(self)@.take_outbound(channel),
    {
        proof {
            old(self)@.lemma_next_keeps_records(Step::TakeOutbound { channel });
        }
        let frames = self.channels.take_outbound(channel);
        proof {
            old(self)@.lemma_take_outbound_inv(channel);
        }
        frames
    }

    /// Decides on a frame that the transport delivered for `channel`: the
    /// role whose handler gets it, or `None` where the frame is dropped
    /// because the channel is not open under that handle, the frame names
    /// another channel, or someone other than the matched peer sent it.
    pub fn on_frame_received(&self, channel: Channel, frame: &ChannelFrame) -> (r: Option<Role>)
        requires
            self.wf(),
        ensures
            r == if receivable(self@.channels, channel, *frame) {
                Some(self@.role)
            } else {
                None
            },
    {
        self.channels.on_frame_received(channel, frame)
    }
}

} // verus!

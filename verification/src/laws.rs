//! What the negotiation protocol guarantees, proved of the state machine.

use vstd::prelude::*;
use crate::records::{Role, Selection};
use crate::state::{EngineView, Notice, Phase, Reaction, Step};

verus! {

impl EngineView {
    /// Selection is idempotent: once the selection of a proposal is
    /// committed, committing it again, whatever the broker answers, is
    /// refused and changes nothing.
    pub proof fn lemma_select_idempotent(
        self,
        proposal_id: u64,
        first: Option<u64>,
        second: Option<u64>,
    )
        requires
            self.inv(),
            self.selects(proposal_id, first),
        ensures
            !self.select(proposal_id, first).selects(proposal_id, second),
            self.select(proposal_id, first).select(proposal_id, second) == self.select(
                proposal_id,
                first,
            ),
    {
        let after = self.select(proposal_id, first);
        let i = self.proposal_slot(proposal_id);
        assert(0 <= i < self.rounds.len() && self.rounds[i].proposal_id == proposal_id);
        self.lemma_select_inv(proposal_id, first);
        assert(after.rounds[i].proposal_id == proposal_id);
        after.lemma_proposal_slot(i);
    }

    /// No operation moves a round but along a step of its state machine,
    /// changes the announcement that a round negotiates, or removes a round.
    pub proof fn lemma_phase_steps(self, step: Step, i: int)
        requires
            self.inv(),
            0 <= i < self.rounds.len(),
        ensures
            i < self.next(step).rounds.len(),
            self.next(step).rounds[i].announcement_id == self.rounds[i].announcement_id,
            self.next(step).rounds[i].phase == self.rounds[i].phase || self.rounds[i].phase.may_become(
                self.next(step).rounds[i].phase,
            ),
    {
        self.lemma_slots(step);
    }

    /// An announcer selects the proposal that answers an announcement of
    /// its own which is open: the verdict on a proposal that carries an
    /// identifier, one that no round holds yet, is the selection of exactly
    /// that proposal for that announcement, and the round is then under
    /// evaluation with it, so that a send that succeeds commits it.
    pub proof fn lemma_open_announcement_selects(
        self,
        announcement_id: u64,
        proposal_id: u64,
        sender_id: u64,
        channel_id: u64,
    )
        requires
            self.inv(),
            self.role == Role::Announcer,
            self.has_announcement(announcement_id),
            self.rounds[self.announcement_slot(announcement_id)].phase == Phase::Open,
            proposal_id != 0,
            !self.has_proposal(proposal_id),
            channel_id != 0,
        ensures
            self.proposal_verdict(proposal_id, announcement_id) == Some(
                Selection { proposal_id, announcement_id },
            ),
            self.on_proposal_received(proposal_id, announcement_id, sender_id).selects(
                proposal_id,
                Some(channel_id),
            ),
    {
        let i = self.announcement_slot(announcement_id);
        let after = self.on_proposal_received(proposal_id, announcement_id, sender_id);
        self.lemma_on_proposal_received_inv(proposal_id, announcement_id, sender_id);
        assert(after.rounds[i].proposal_id == proposal_id);
        after.lemma_proposal_slot(i);
    }

    /// An announcement that was just announced is open, so the first
    /// proposal that answers it is selected.
    pub proof fn lemma_first_proposal_is_selected(
        self,
        delivery: Option<u64>,
        proposal_id: u64,
    )
        requires
            self.inv(),
            self.rounds.len() < usize::MAX,
            self.announce_outcome(0, delivery) is Ok,
            proposal_id != 0,
            !self.has_proposal(proposal_id),
        ensures
            self.announce(0, delivery).proposal_verdict(proposal_id, delivery->0) == Some(
                Selection { proposal_id, announcement_id: delivery->0 },
            ),
    {
        let after = self.announce(0, delivery);
        let n = self.rounds.len() as int;
        self.lemma_announce_inv(0, delivery);
        assert(after.rounds[n].announcement_id == delivery->0);
        after.lemma_announcement_slot(n);
        assert forall|j: int| 0 <= j < after.rounds.len() implies (
        #[trigger] after.rounds[j]).proposal_id != proposal_id by {
            if j < n {
                assert(after.rounds[j] == self.rounds[j]);
            }
        }
    }

    /// A selection whose send failed is not retried and does not hold the
    /// announcement up: the announcement is open again and takes up the next
    /// proposal that answers it, and a confirmation that comes later for the
    /// proposal that was let go is stale.
    pub proof fn lemma_failed_selection_reopens(
        self,
        proposal_id: u64,
        outcome: Option<u64>,
        later_id: u64,
        notice: Notice,
    )
        requires
            self.inv(),
            self.selecting(proposal_id),
            outcome is None || outcome == Some(0u64),
            later_id != 0,
            later_id == proposal_id || !self.has_proposal(later_id),
            notice.target_id == proposal_id,
        ensures
            !self.select(proposal_id, outcome).has_proposal(proposal_id),
            self.select(proposal_id, outcome).rounds[self.proposal_slot(proposal_id)].phase
                == Phase::Open,
            self.select(proposal_id, outcome).takes_proposal(
                later_id,
                self.rounds[self.proposal_slot(proposal_id)].announcement_id,
            ),
            self.select(proposal_id, outcome).notice_reaction(notice) == Reaction::Dropped,
            self.select(proposal_id, outcome).on_selection_or_confirm(notice) == self.select(
                proposal_id,
                outcome,
            ),
    {
        let i = self.proposal_slot(proposal_id);
        assert(0 <= i < self.rounds.len() && self.rounds[i].proposal_id == proposal_id);
        self.lemma_proposal_slot(i);
        let after = self.select(proposal_id, outcome);
        self.lemma_select_inv(proposal_id, outcome);
        assert(self.rounds[i].phase.fits(self.role));
        assert forall|j: int| 0 <= j < after.rounds.len() implies (
        #[trigger] after.rounds[j]).proposal_id != proposal_id && after.rounds[j].proposal_id
            != later_id by {
            if j != i {
                assert(after.rounds[j] == self.rounds[j]);
                if j < i {
                    if self.rounds[j].proposal_id != 0 {
                        assert(self.rounds[j].proposal_id != self.rounds[i].proposal_id);
                    }
                } else {
                    assert(self.rounds[i].proposal_id != self.rounds[j].proposal_id);
                }
            }
        }
        after.lemma_announcement_slot(i);
        assert(!after.ledger.contains_key(proposal_id)) by {
            if after.ledger.contains_key(proposal_id) {
                let j = after.ledger[proposal_id] as int;
                assert(after.rounds[j].proposal_id == proposal_id);
            }
        }
    }

    /// An announcer has one round for an announcement, and so one place for
    /// the selection that is made for it.
    pub proof fn lemma_one_round_per_announcement(self, i: int, j: int)
        requires
            self.inv(),
            self.role == Role::Announcer,
            0 <= i < self.rounds.len(),
            0 <= j < self.rounds.len(),
            self.rounds[i].announcement_id == self.rounds[j].announcement_id,
        ensures
            i == j,
    {
        self.lemma_announcement_slot(i);
        self.lemma_announcement_slot(j);
    }

    /// At most one selection is ever made for an announcement: once a
    /// selection was sent for the announcement of a round, no operation
    /// changes the proposal that the round holds or makes the round
    /// selectable again. By the invariant the announcer has no other round
    /// for that announcement.
    pub proof fn lemma_selection_is_final(self, step: Step, i: int)
        requires
            self.inv(),
            0 <= i < self.rounds.len(),
            self.rounds[i].phase.is_selected(),
        ensures
            i < self.next(step).rounds.len(),
            self.next(step).rounds[i].announcement_id == self.rounds[i].announcement_id,
            self.next(step).rounds[i].proposal_id == self.rounds[i].proposal_id,
            self.next(step).rounds[i].phase.is_selected(),
    {
        self.lemma_slots(step);
        self.lemma_proposal_slot(i);
    }

    /// A selection or confirmation is accepted if and only if the ledger
    /// holds its target when it arrives. Accepting it consumes the entry, so
    /// the same target is not accepted twice: a second message for it is
    /// dropped and changes nothing.
    pub proof fn lemma_confirmation_consumed(self, notice: Notice, again: Notice)
        requires
            self.inv(),
            again.target_id == notice.target_id,
        ensures
            (self.notice_reaction(notice) != Reaction::Dropped) == self.ledger.contains_key(
                notice.target_id,
            ),
            !self.ledger.contains_key(notice.target_id) ==> self.on_selection_or_confirm(notice)
                == self,
            !self.on_selection_or_confirm(notice).ledger.contains_key(notice.target_id),
            self.on_selection_or_confirm(notice).notice_reaction(again) == Reaction::Dropped,
            self.on_selection_or_confirm(notice).on_selection_or_confirm(again)
                == self.on_selection_or_confirm(notice),
    {
    }

    /// A round becomes matched only by a confirmation: an announcer's round
    /// that awaited the confirmation of its selection when a message for its
    /// proposal arrived, or a counter-proposer's round whose own confirmation
    /// of a selection was delivered.
    pub proof fn lemma_match_needs_confirmation(self, step: Step, i: int)
        requires
            self.inv(),
            0 <= i < self.rounds.len(),
            self.rounds[i].phase != Phase::Matched,
            i < self.next(step).rounds.len(),
            self.next(step).rounds[i].phase == Phase::Matched,
        ensures
            match step {
                Step::Notice { notice } => self.rounds[i].phase == Phase::AwaitingConfirm
                    && notice.target_id == self.rounds[i].proposal_id
                    && self.ledger.contains_key(notice.target_id),
                Step::Confirm { target_id, delivered } => self.rounds[i].phase == Phase::Confirming
                    && target_id == self.rounds[i].proposal_id && delivered,
                _ => false,
            },
    {
        self.lemma_slots(step);
    }

    /// No channel is opened before selection and confirmation are both
    /// complete: a channel that an operation opens is the channel of a round
    /// that was matched before, and the operation is the opening of that
    /// round's channel.
    pub proof fn lemma_channel_needs_match(self, step: Step, channel_id: u64)
        requires
            self.inv(),
            !self.channels.contains_key(channel_id),
            self.next(step).channels.contains_key(channel_id),
        ensures
            step is OpenChannel,
            exists|i: int|
                0 <= i < self.rounds.len() && (#[trigger] self.rounds[i]).channel_id == channel_id
                    && self.rounds[i].phase == Phase::Matched && self.rounds[i].proposal_id
                    == step->OpenChannel_proposal_id,
    {
        self.lemma_slots(step);
        if let Step::OpenChannel { proposal_id } = step {
            let i = self.proposal_slot(proposal_id);
            assert(self.rounds[i].channel_id == channel_id);
        }
    }

    /// Opening the channel of a match is idempotent: asked for again, it
    /// opens nothing and changes nothing, so no channel and no queued frame
    /// is duplicated.
    pub proof fn lemma_open_channel_idempotent(self, proposal_id: u64)
        requires
            self.inv(),
        ensures
            !self.open_channel(proposal_id).opens(proposal_id),
            self.open_channel(proposal_id).open_channel(proposal_id) == self.open_channel(
                proposal_id,
            ),
    {
        if self.opens(proposal_id) {
            let i = self.proposal_slot(proposal_id);
            assert(0 <= i < self.rounds.len() && self.rounds[i].proposal_id == proposal_id);
            let after = self.open_channel(proposal_id);
            self.lemma_open_channel_inv(proposal_id);
            assert(after.rounds[i].proposal_id == proposal_id);
            after.lemma_proposal_slot(i);
        }
    }

    /// The ledger holds an entry under an identifier if and only if some
    /// round holds that identifier as its proposal and awaits a selection or
    /// confirmation of it.
    pub proof fn lemma_ledger_holds_what_is_awaited(self, id: u64)
        requires
            self.inv(),
        ensures
            self.ledger.contains_key(id) <==> exists|i: int|
                0 <= i < self.rounds.len() && (#[trigger] self.rounds[i]).proposal_id == id
                    && self.rounds[i].phase.awaits_notice(),
    {
        if self.ledger.contains_key(id) {
            let i = self.ledger[id] as int;
            assert(self.rounds[i].proposal_id == id && self.rounds[i].phase.awaits_notice());
        }
    }

    /// Every open channel belongs to a round that is done, in every state
    /// that meets the invariant.
    pub proof fn lemma_channel_implies_done(self, channel_id: u64)
        requires
            self.inv(),
            self.channels.contains_key(channel_id),
        ensures
            exists|i: int|
                0 <= i < self.rounds.len() && (#[trigger] self.rounds[i]).channel_id == channel_id
                    && self.rounds[i].phase == Phase::Done,
    {
    }
}

} // verus!

//! The shared vocabulary of the negotiation: the records that providers
//! exchange. Pure data.

use vstd::prelude::*;

verus! {

/// The family of a message: supply on offer, or demand requested.
#[derive(Clone, Copy, Debug, PartialEq, Eq, Structural)]
pub enum Family {
    /// An Offer announces available supply; a supply proposal answers a Request.
    Supply,
    /// A Request announces wanted demand; a demand proposal answers an Offer.
    Demand,
}

impl Family {
    /// The other family: what answers an announcement of this one.
    pub open spec fn spec_opposite(self) -> Family {
        match self {
            Family::Supply => Family::Demand,
            Family::Demand => Family::Supply,
        }
    }

    /// The other family: what answers an announcement of this one.
    #[verifier::when_used_as_spec(spec_opposite)]
    pub fn opposite(self) -> (r: Family)
        ensures
            r == self.spec_opposite(),
    {
        match self {
            Family::Supply => Family::Demand,
            Family::Demand => Family::Supply,
        }
    }
}

/// The part that a provider plays in a negotiation.
#[derive(Clone, Copy, Debug, PartialEq, Eq, Structural)]
pub enum Role {
    /// Announces, waits for proposals, selects one, awaits its confirmation.
    Announcer,
    /// Answers an announcement with a proposal, confirms when selected.
    CounterProposer,
}

/// What an inbound message is, for the purpose of routing it.
#[derive(Clone, Copy, Debug, PartialEq, Eq, Structural)]
pub enum MessageKind {
    Offer,
    Request,
    Proposal,
    Selection,
    Confirm,
    Frame,
}

/// A message as the transport delivers it.
#[derive(Clone, Debug, PartialEq, Eq)]
pub struct Message {
    /// Identifier that the broker gave the message.
    pub id: u64,
    /// Provider that sent it.
    pub sender_id: u64,
    /// Identifier of the message that this one answers; 0 for an announcement.
    pub target_id: u64,
    /// Announcement type of the message.
    pub name: String,
    /// Payload text.
    pub payload: String,
    /// Channel that the broker set up for the pair; 0 where there is none.
    pub channel_id: u64,
}

/// An Offer or a Request: an announcement of availability or need.
#[derive(Clone, Debug, PartialEq, Eq)]
pub struct Announcement {
    /// Assigned by the broker on first announce; 0 until then.
    pub id: u64,
    /// The announcing provider.
    pub provider_id: u64,
    /// Offer (supply) or Request (demand).
    pub family: Family,
    /// Application-defined announcement type.
    pub kind: String,
    /// Payload text: an envelope.
    pub payload: String,
    /// Opaque binary attachment; empty where there is none.
    pub attachment: Vec<u8>,
    /// When the announcement was made, as the caller counts time.
    pub created_at: u64,
}

/// A counter-offer in answer to an announcement.
#[derive(Clone, Debug, PartialEq, Eq)]
pub struct Proposal {
    /// Assigned by the broker when the proposal is sent; 0 until then.
    pub id: u64,
    /// The announcement that is answered.
    pub target_id: u64,
    /// The proposing provider.
    pub sender_id: u64,
    /// Application-defined type of the proposal.
    pub kind: String,
    /// Payload text: an envelope.
    pub payload: String,
}

/// The announcer's choice of one proposal as the winner.
#[derive(Clone, Copy, Debug, PartialEq, Eq, Structural)]
pub struct Selection {
    pub proposal_id: u64,
    pub announcement_id: u64,
}

/// The chosen proposer's acceptance of a selection.
#[derive(Clone, Copy, Debug, PartialEq, Eq, Structural)]
pub struct Confirmation {
    /// Identifier of the selection that is accepted.
    pub id: u64,
    /// The proposal that was selected.
    pub target_id: u64,
}

/// A message on a data channel.
#[derive(Clone, Debug, PartialEq, Eq)]
pub struct ChannelFrame {
    /// Filled in by the transport; 0 until then.
    pub frame_id: u64,
    /// Filled in by the transport; 0 until then.
    pub sender_id: u64,
    /// The provider addressed; 0 for whoever shares the channel.
    pub target_id: u64,
    /// The channel that carries the frame.
    pub mbus_id: u64,
    /// Application-defined numeric kind.
    pub kind: i32,
    /// Free-text label.
    pub info: String,
    /// Payload text; may be empty.
    pub payload: String,
    /// Opaque bytes.
    pub attachment: Option<Vec<u8>>,
}


/// A delivered message as a mathematical value.
pub ghost struct MessageView {
    pub id: u64,
    pub sender_id: u64,
    pub target_id: u64,
    pub name: Seq<char>,
    pub payload: Seq<char>,
    pub channel_id: u64,
}

impl View for Message {
    type V = MessageView;

    open spec fn view(&self) -> MessageView {
        MessageView {
            id: self.id,
            sender_id: self.sender_id,
            target_id: self.target_id,
            name: self.name@,
            payload: self.payload@,
            channel_id: self.channel_id,
        }
    }
}

/// An announcement as a mathematical value.
pub ghost struct AnnouncementView {
    pub id: u64,
    pub provider_id: u64,
    pub family: Family,
    pub kind: Seq<char>,
    pub payload: Seq<char>,
    pub attachment: Seq<u8>,
    pub created_at: u64,
}

impl View for Announcement {
    type V = AnnouncementView;

    open spec fn view(&self) -> AnnouncementView {
        AnnouncementView {
            id: self.id,
            provider_id: self.provider_id,
            family: self.family,
            kind: self.kind@,
            payload: self.payload@,
            attachment: self.attachment@,
            created_at: self.created_at,
        }
    }
}

/// A proposal as a mathematical value.
pub ghost struct ProposalView {
    pub id: u64,
    pub target_id: u64,
    pub sender_id: u64,
    pub kind: Seq<char>,
    pub payload: Seq<char>,
}

impl View for Proposal {
    type V = ProposalView;

    open spec fn view(&self) -> ProposalView {
        ProposalView {
            id: self.id,
            target_id: self.target_id,
            sender_id: self.sender_id,
            kind: self.kind@,
            payload: self.payload@,
        }
    }
}

/// A channel frame as a mathematical value.
pub ghost struct FrameView {
    pub frame_id: u64,
    pub sender_id: u64,
    pub target_id: u64,
    pub mbus_id: u64,
    pub kind: i32,
    pub info: Seq<char>,
    pub payload: Seq<char>,
    pub attachment: Option<Seq<u8>>,
}

impl View for ChannelFrame {
    type V = FrameView;

    open spec fn view(&self) -> FrameView {
        FrameView {
            frame_id: self.frame_id,
            sender_id: self.sender_id,
            target_id: self.target_id,
            mbus_id: self.mbus_id,
            kind: self.kind,
            info: self.info@,
            payload: self.payload@,
            attachment: match self.attachment {
                Some(bytes) => Some(bytes@),
                None => None,
            },
        }
    }
}

} // verus!

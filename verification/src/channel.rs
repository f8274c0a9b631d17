//! The channel manager: the data channels that a provider shares with the
//! peers it was matched with, and the frames queued on them.

use vstd::prelude::*;
use crate::records::{ChannelFrame, Role};
use crate::table::IdTable;

verus! {

/// A handle on a data channel between two matched providers.
#[derive(Clone, Copy, Debug, PartialEq, Eq, Structural)]
pub struct Channel {
    /// Identifier that the broker gave the channel.
    pub channel_id: u64,
    /// The provider on this side.
    pub local_id: u64,
    /// The matched peer. No third party joins the channel.
    pub remote_id: u64,
    /// The part that this side played in the match; inbound frames go to the
    /// handler for that part.
    pub kind: Role,
}

/// An open channel with the frames that wait to be sent on it.
struct Line {
    channel: Channel,
    outbox: Vec<ChannelFrame>,
}

/// An open channel as a mathematical value.
pub ghost struct ChannelState {
    pub channel: Channel,
    /// Frames queued for delivery, oldest first.
    pub outbox: Seq<ChannelFrame>,
}

/// The open channels of one provider.
pub struct ChannelManager {
    kind: Role,
    lines: IdTable<Line>,
}

/// The channels after a request to open `channel_id`: unchanged where that
/// channel is open already, else with a new channel without queued frames.
pub open spec fn opened(
    channels: Map<u64, ChannelState>,
    kind: Role,
    channel_id: u64,
    local_id: u64,
    remote_id: u64,
) -> Map<u64, ChannelState> {
    if channels.contains_key(channel_id) {
        channels
    } else {
        channels.insert(
            channel_id,
            ChannelState {
                channel: Channel { channel_id, local_id, remote_id, kind },
                outbox: Seq::empty(),
            },
        )
    }
}

/// Whether `channel` is the handle of an open channel.
pub open spec fn holds(channels: Map<u64, ChannelState>, channel: Channel) -> bool {
    &&& channels.contains_key(channel.channel_id)
    &&& channels[channel.channel_id].channel == channel
}

/// Whether `frame` may be queued on `channel`: the channel is open under
/// that handle and the frame names it.
pub open spec fn sendable(
    channels: Map<u64, ChannelState>,
    channel: Channel,
    frame: ChannelFrame,
) -> bool {
    &&& holds(channels, channel)
    &&& frame.mbus_id == channel.channel_id
}

/// The frames that wait on `channel`, oldest first; none where the channel
/// is not open under that handle.
pub open spec fn waiting(channels: Map<u64, ChannelState>, channel: Channel) -> Seq<ChannelFrame> {
    if holds(channels, channel) {
        channels[channel.channel_id].outbox
    } else {
        Seq::empty()
    }
}

/// The channels after the frames that wait on `channel` were handed over.
pub open spec fn drained(channels: Map<u64, ChannelState>, channel: Channel) -> Map<
    u64,
    ChannelState,
> {
    if holds(channels, channel) {
        channels.insert(channel.channel_id, ChannelState { channel, outbox: Seq::empty() })
    } else {
        channels
    }
}

/// The channels after `frame` was queued on `channel`.
pub open spec fn queued(
    channels: Map<u64, ChannelState>,
    channel: Channel,
    frame: ChannelFrame,
) -> Map<u64, ChannelState> {
    if sendable(channels, channel, frame) {
        channels.insert(
            channel.channel_id,
            ChannelState { channel, outbox: channels[channel.channel_id].outbox.push(frame) },
        )
    } else {
        channels
    }
}

/// Whether an inbound `frame` belongs to `channel`: the channel is open
/// under that handle, the frame names it, and the matched peer sent it.
pub open spec fn receivable(
    channels: Map<u64, ChannelState>,
    channel: Channel,
    frame: ChannelFrame,
) -> bool {
    &&& holds(channels, channel)
    &&& frame.mbus_id == channel.channel_id
    &&& frame.sender_id == channel.remote_id
}

impl ChannelManager {
    /// The manager's internal invariant.
    pub closed spec fn wf(&self) -> bool {
        &&& self.lines.wf()
        &&& forall|id: u64| #[trigger]
            self.lines@.contains_key(id) ==> self.lines@[id].channel.channel_id == id
                && self.lines@[id].channel.kind == self.kind
    }

    /// The part that this provider plays: the kind of every channel here.
    pub closed spec fn kind(&self) -> Role {
        self.kind
    }

    /// The open channels, by channel identifier.
    pub closed spec fn view(&self) -> Map<u64, ChannelState> {
        Map::new(
            |id: u64| self.lines@.contains_key(id),
            |id: u64|
                ChannelState { channel: self.lines@[id].channel, outbox: self.lines@[id].outbox@ },
        )
    }

    /// A manager without channels, for a provider that plays `kind`.
    pub fn new(kind: Role) -> (r: Self)
        ensures
            r.wf(),
            r.kind() == kind,
            r@ == Map::<u64, ChannelState>::empty(),
    {
        let r = ChannelManager { kind, lines: IdTable::new() };
        assert(r@ =~= Map::<u64, ChannelState>::empty());
        r
    }

    /// Whether `channel_id` is open.
    pub fn is_open(&self, channel_id: u64) -> (r: bool)
        requires
            self.wf(),
        ensures
            r == self@.contains_key(channel_id),
    {
        self.lines.contains(channel_id)
    }

    /// The handle of the open channel `channel_id`, or `None` where it is
    /// not open.
    pub fn channel(&self, channel_id: u64) -> (r: Option<Channel>)
        requires
            self.wf(),
        ensures
            r == if self@.contains_key(channel_id) {
                Some(self@[channel_id].channel)
            } else {
                None
            },
    {
        match self.lines.get(channel_id) {
            Some(line) => Some(line.channel),
            None => None,
        }
    }

    /// Opens the channel `channel_id` between `local_id` and `remote_id`.
    /// Where that channel is open already, nothing changes and the handle of
    /// the open channel is returned.
    pub fn open(&mut self, channel_id: u64, local_id: u64, remote_id: u64) -> (r: Channel)
        requires
            old(self).wf(),
        ensures
            final(self).wf(),
            final(self).kind() == old(self).kind(),
            final(self)@ == opened(old(self)@, old(self).kind(), channel_id, local_id, remote_id),
            final(self)@.contains_key(channel_id),
            r == final(self)@[channel_id].channel,
    {
        match self.lines.get(channel_id) {
            Some(line) => line.channel,
            None => {
                let channel = Channel { channel_id, local_id, remote_id, kind: self.kind };
                self.lines.insert(channel_id, Line { channel, outbox: Vec::new() });
                assert(self@ =~= opened(
                    old(self)@,
                    old(self).kind(),
                    channel_id,
                    local_id,
                    remote_id,
                ));
                channel
            },
        }
    }

    /// Queues `frame` for delivery on `channel` and says whether it did. The
    /// caller does not wait for delivery. A frame for a channel that is not
    /// open under that handle, or that names another channel, is refused.
    pub fn send(&mut self, channel: Channel, frame: ChannelFrame) -> (r: bool)
        requires
            old(self).wf(),
        ensures
            final(self).wf(),
            final(self).kind() == old(self).kind(),
            r == sendable(old(self)@, channel, frame),
            final(self)@ == queued(old(self)@, channel, frame),
    {
        if frame.mbus_id != channel.channel_id {
            return false;
        }
        match self.lines.remove(channel.channel_id) {
            Some(line) => {
                let Line { channel: held, outbox } = line;
                let mut outbox = outbox;
                let accepted = held == channel;
                if accepted {
                    outbox.push(frame);
                }
                self.lines.insert(channel.channel_id, Line { channel: held, outbox });
                assert(self@ =~= queued(old(self)@, channel, frame));
                accepted
            },
            None => {
                assert(self@ =~= old(self)@);
                false
            },
        }
    }

    /// Hands over the frames queued on `channel`, oldest first, and leaves
    /// its queue empty. Nothing is handed over for a channel that is not open
    /// under that handle.
    pub fn take_outbound(&mut self, channel: Channel) -> (r: Vec<ChannelFrame>)
        requires
            old(self).wf(),
        ensures
            final(self).wf(),
            final(self).kind() == old(self).kind(),
            r@ == waiting(old(self)@, channel),
            final(self)@ == drained(old(self)@, channel),
    {
        match self.lines.remove(channel.channel_id) {
            Some(line) => {
                let Line { channel: held, outbox } = line;
                if held == channel {
                    self.lines.insert(channel.channel_id, Line { channel: held, outbox: Vec::new() });
                    assert(self@ =~= drained(old(self)@, channel));
                    outbox
                } else {
                    self.lines.insert(channel.channel_id, Line { channel: held, outbox });
                    assert(self@ =~= old(self)@);
                    Vec::new()
                }
            },
            None => {
                assert(self@ =~= old(self)@);
                Vec::new()
            },
        }
    }

    /// Decides on a frame that the transport delivered for `channel`: the
    /// kind of the handler that gets it, or `None` where the frame is dropped
    /// because the channel is not open under that handle, the frame names
    /// another channel, or someone other than the matched peer sent it.
    pub fn on_frame_received(&self, channel: Channel, frame: &ChannelFrame) -> (r: Option<Role>)
        requires
            self.wf(),
        ensures
            r == if receivable(self@, channel, *frame) {
                Some(self.kind())
            } else {
                None
            },
    {
        match self.lines.get(channel.channel_id) {
            Some(line) => {
                if line.channel == channel && frame.mbus_id == channel.channel_id
                    && frame.sender_id == channel.remote_id {
                    Some(self.kind)
                } else {
                    None
                }
            },
            None => None,
        }
    }
}

/// Opening is idempotent: a second request to open the same channel, with
/// whatever peers, changes nothing. It yields the channel of the first
/// request and leaves every queue, with the frames already queued, as it was.
pub proof fn lemma_open_idempotent(
    channels: Map<u64, ChannelState>,
    kind: Role,
    channel_id: u64,
    local_id: u64,
    remote_id: u64,
    other_local_id: u64,
    other_remote_id: u64,
)
    ensures
        opened(
            opened(channels, kind, channel_id, local_id, remote_id),
            kind,
            channel_id,
            other_local_id,
            other_remote_id,
        ) == opened(channels, kind, channel_id, local_id, remote_id),
        channels.contains_key(channel_id) ==> opened(
            channels,
            kind,
            channel_id,
            local_id,
            remote_id,
        ) == channels,
{
}

} // verus!

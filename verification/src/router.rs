//! The subscription router: which handler gets an inbound message of which
//! kind.

use vstd::prelude::*;
use crate::records::MessageKind;

verus! {

/// The handlers that a provider can register: one capability each.
#[derive(Clone, Copy, Debug, PartialEq, Eq, Structural)]
pub enum Handler {
    /// Selects among supply proposals that answer the provider's requests.
    SupplyNotifier,
    /// Selects among demand proposals that answer the provider's offers.
    DemandNotifier,
    /// Answers offers with demand proposals and confirms their selection.
    SupplyEcho,
    /// Answers requests with supply proposals and confirms their selection.
    DemandEcho,
    /// Takes the frames on an announcer's channels.
    ChannelNotifier,
    /// Takes the frames on a counter-proposer's channels.
    ChannelSubscriber,
}

/// The handlers of one provider: at most one for each kind of message.
pub struct Router {
    offer: Option<Handler>,
    request: Option<Handler>,
    proposal: Option<Handler>,
    selection: Option<Handler>,
    confirm: Option<Handler>,
    frame: Option<Handler>,
}

impl Router {
    /// The handler in the slot of `kind`.
    spec fn slot(&self, kind: MessageKind) -> Option<Handler> {
        match kind {
            MessageKind::Offer => self.offer,
            MessageKind::Request => self.request,
            MessageKind::Proposal => self.proposal,
            MessageKind::Selection => self.selection,
            MessageKind::Confirm => self.confirm,
            MessageKind::Frame => self.frame,
        }
    }

    /// The registered handlers, by message kind.
    pub closed spec fn view(&self) -> Map<MessageKind, Handler> {
        Map::new(|kind: MessageKind| self.slot(kind) is Some, |kind: MessageKind| self.slot(kind)->0)
    }

    /// A router without handlers.
    pub fn new() -> (r: Router)
        ensures
            r@ == Map::<MessageKind, Handler>::empty(),
    {
        let r = Router {
            offer: None,
            request: None,
            proposal: None,
            selection: None,
            confirm: None,
            frame: None,
        };
        assert(r@ =~= Map::<MessageKind, Handler>::empty());
        r
    }

    /// Registers `handler` for messages of `kind`, in place of the handler
    /// that was registered for that kind, which is returned.
    pub fn register(&mut self, kind: MessageKind, handler: Handler) -> (r: Option<Handler>)
        ensures
            final(self)@ == old(self)@.insert(kind, handler),
            r == if old(self)@.contains_key(kind) {
                Some(old(self)@[kind])
            } else {
                None
            },
    {
        let previous = match kind {
            MessageKind::Offer => {
                let previous = self.offer;
                self.offer = Some(handler);
                previous
            },
            MessageKind::Request => {
                let previous = self.request;
                self.request = Some(handler);
                previous
            },
            MessageKind::Proposal => {
                let previous = self.proposal;
                self.proposal = Some(handler);
                previous
            },
            MessageKind::Selection => {
                let previous = self.selection;
                self.selection = Some(handler);
                previous
            },
            MessageKind::Confirm => {
                let previous = self.confirm;
                self.confirm = Some(handler);
                previous
            },
            MessageKind::Frame => {
                let previous = self.frame;
                self.frame = Some(handler);
                previous
            },
        };
        assert(self@ =~= old(self)@.insert(kind, handler));
        previous
    }

    /// The handler that gets one inbound message of `kind`: the one
    /// registered for that kind, or none. The caller dispatches each message
    /// on arrival, so a message reaches at most one handler, once.
    pub fn dispatch(&self, kind: MessageKind) -> (r: Option<Handler>)
        ensures
            r == if self@.contains_key(kind) {
                Some(self@[kind])
            } else {
                None
            },
    {
        match kind {
            MessageKind::Offer => self.offer,
            MessageKind::Request => self.request,
            MessageKind::Proposal => self.proposal,
            MessageKind::Selection => self.selection,
            MessageKind::Confirm => self.confirm,
            MessageKind::Frame => self.frame,
        }
    }
}

/// Registering twice for one kind is not additive: only the later handler
/// is registered.
pub proof fn lemma_register_replaces(
    handlers: Map<MessageKind, Handler>,
    kind: MessageKind,
    first: Handler,
    second: Handler,
)
    ensures
        handlers.insert(kind, first).insert(kind, second) == handlers.insert(kind, second),
        handlers.insert(kind, first).insert(kind, second)[kind] == second,
{
    assert(handlers.insert(kind, first).insert(kind, second) =~= handlers.insert(kind, second));
}

} // verus!

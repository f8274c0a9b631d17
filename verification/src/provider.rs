//! The template provider: what a provider built from the template
//! announces, how it answers what it receives, and what it does once a send
//! is settled.
//!
//! Nothing here sends or receives. A callback turns a delivered message into
//! the action to perform; the caller performs it and reports the outcome to
//! the function that settles it.

use vstd::prelude::*;
use vstd::string::StringExecFns;
use crate::channel::Channel;
use crate::document::{Json, content, optional_integer_value, render, rendered};
use crate::engine::Engine;
use crate::envelope::{
    Envelope, EnvelopeError, EnvelopeView, document_of, envelope_of, envelope_of_text,
    identifier_json, member_or_null, outcome_view,
};
use crate::records::{
    Announcement, AnnouncementView, ChannelFrame, Confirmation, Family, FrameView, Message,
    MessageKind, MessageView, Proposal, ProposalView, Role, Selection,
};
use crate::router::{Handler, Router};
use crate::state::{EngineView, Notice, Reaction};

verus! {

/// Why a delivered message leads to no action.
#[derive(Clone, Copy, Debug, PartialEq, Eq, Structural)]
pub enum DropReason {
    /// The payload is not a JSON document.
    Unparseable,
    /// The payload has no discriminator.
    MissingType,
    /// The announcement type of the message is not one that the handler takes.
    UnknownKind,
    /// The discriminator of the payload is not the one that goes with the
    /// announcement type.
    UnknownType,
    /// The proposal does not answer an open announcement of this provider.
    NotTakenUp,
    /// The target of the selection or confirmation is not in the ledger.
    Unmatched,
}

/// How loudly a dropped message is reported.
#[derive(Clone, Copy, Debug, PartialEq, Eq, Structural)]
pub enum Severity {
    Error,
    Warning,
    Info,
}

impl DropReason {
    /// The level at which the drop is logged: a malformed payload is an
    /// error, an unknown kind or type a warning, anything stale or unmatched
    /// is information.
    pub open spec fn spec_severity(self) -> Severity {
        match self {
            DropReason::Unparseable | DropReason::MissingType => Severity::Error,
            DropReason::UnknownKind | DropReason::UnknownType => Severity::Warning,
            DropReason::NotTakenUp | DropReason::Unmatched => Severity::Info,
        }
    }

    /// The level at which the drop is logged.
    #[verifier::when_used_as_spec(spec_severity)]
    pub fn severity(self) -> (r: Severity)
        ensures
            r == self.spec_severity(),
    {
        match self {
            DropReason::Unparseable | DropReason::MissingType => Severity::Error,
            DropReason::UnknownKind | DropReason::UnknownType => Severity::Warning,
            DropReason::NotTakenUp | DropReason::Unmatched => Severity::Info,
        }
    }
}

/// Why the provider cannot start or announce.
#[derive(Clone, Copy, Debug, PartialEq, Eq, Structural)]
pub enum TemplateError {
    /// The mode is neither `notify` nor `subscribe`.
    UnknownMode,
    /// The message type is neither `Supply` nor `Demand`.
    UnknownMessageType,
}

/// What the caller is to do about a delivered message.
#[derive(Clone, Debug, PartialEq, Eq)]
pub enum Action {
    /// Nothing: log the reason at its severity.
    Drop(DropReason),
    /// Send this proposal, then report the outcome to `Engine::propose`.
    Propose(Proposal),
    /// Send this selection, then report the outcome to `settle_selection`.
    Select(Selection),
    /// Send this confirmation, then report the outcome to `settle_confirmation`.
    Confirm(Confirmation),
    /// A confirmation was accepted: open this channel with `Engine::open_channel`.
    Open(Channel),
}

/// An action as a mathematical value.
pub ghost enum ActionView {
    Drop(DropReason),
    Propose(ProposalView),
    Select(Selection),
    Confirm(Confirmation),
    Open(Channel),
}

impl View for Action {
    type V = ActionView;

    open spec fn view(&self) -> ActionView {
        match self {
            Action::Drop(reason) => ActionView::Drop(*reason),
            Action::Propose(proposal) => ActionView::Propose(proposal@),
            Action::Select(selection) => ActionView::Select(*selection),
            Action::Confirm(confirmation) => ActionView::Confirm(*confirmation),
            Action::Open(channel) => ActionView::Open(*channel),
        }
    }
}

/// How a provider of the template starts: its role and what it subscribes to.
#[derive(Clone, Copy, Debug, PartialEq, Eq, Structural)]
pub struct Plan {
    pub role: Role,
    /// The family that the provider announces every few seconds, if it announces.
    pub announces: Option<Family>,
    /// The family of messages that the provider subscribes to.
    pub listens: Family,
    /// The handler for those messages.
    pub handler: Handler,
    /// The handler for frames on the provider's channels.
    pub frames: Handler,
}

/// The word for a family.
pub open spec fn family_word(family: Family) -> Seq<char> {
    match family {
        Family::Supply => "Supply"@,
        Family::Demand => "Demand"@,
    }
}

/// The announcement type of an announcement of a family, which is also the
/// discriminator of its payload.
pub open spec fn notify_tag(family: Family) -> Seq<char> {
    match family {
        Family::Supply => "Template:NotifySupply"@,
        Family::Demand => "Template:NotifyDemand"@,
    }
}

/// The announcement type of a proposal of a family, which is also the
/// discriminator of its payload.
pub open spec fn propose_tag(family: Family) -> Seq<char> {
    match family {
        Family::Supply => "Template:ProposeSupply"@,
        Family::Demand => "Template:ProposeDemand"@,
    }
}

/// The family that a message type names.
pub open spec fn family_of_word(word: Seq<char>) -> Option<Family> {
    if word == "Supply"@ {
        Some(Family::Supply)
    } else if word == "Demand"@ {
        Some(Family::Demand)
    } else {
        None
    }
}

/// The description of an announcement of `family` whose number is written
/// as `count`.
pub open spec fn notify_title(family: Family, count: Seq<char>) -> Seq<char> {
    family_word(family) + " Message from Notify"@ + family_word(family)
        + " Mode Node. Count = "@ + count
}

/// The description in the payload of the announcement number `count`.
pub open spec fn notify_name(family: Family, count: i32) -> Seq<char> {
    notify_title(family, rendered(Json::Integer(count as int)))
}

/// The payload of the announcement number `count`.
pub open spec fn notify_envelope(family: Family, count: i32) -> EnvelopeView {
    EnvelopeView {
        context_tag: "https://schema.org/"@,
        id: "notify_node"@,
        type_tag: notify_tag(family),
        name: notify_name(family, count),
        identifier: Json::Integer(count as int),
    }
}

/// The description of a proposal that answers an announcement of the
/// family `announced` whose correlation number is written as `identifier`.
pub open spec fn proposal_title(announced: Family, identifier: Seq<char>) -> Seq<char> {
    family_word(announced.opposite()) + " Message from Subscribe"@ + family_word(announced)
        + " mode node for "@ + family_word(announced) + "["@ + identifier + "]"@
}

/// The description in the payload of a proposal that answers an announcement
/// of the family `announced` with the given correlation number.
pub open spec fn proposal_name(announced: Family, identifier: Json) -> Seq<char> {
    proposal_title(announced, rendered(identifier))
}

/// The payload of a proposal that answers an announcement of the family
/// `announced` with the given correlation number.
pub open spec fn proposal_envelope(announced: Family, identifier: Json) -> EnvelopeView {
    EnvelopeView {
        context_tag: "https://schema.org/"@,
        id: "supply_node"@,
        type_tag: propose_tag(announced.opposite()),
        name: proposal_name(announced, identifier),
        identifier,
    }
}

/// The bytes that a counter-proposer attaches to its first frame.
pub open spec fn data_bytes(announced: Family) -> Seq<u8> {
    match announced {
        Family::Supply => seq![0u8, 1u8, 2u8],
        Family::Demand => seq![3u8, 4u8, 5u8],
    }
}

/// The first frame that a counter-proposer sends on the channel of a match.
pub open spec fn data_frame(announced: Family, channel_id: u64) -> FrameView {
    FrameView {
        frame_id: 0,
        sender_id: 0,
        target_id: 0,
        mbus_id: channel_id,
        kind: 0,
        info: "data"@,
        payload: Seq::empty(),
        attachment: Some(data_bytes(announced)),
    }
}

/// The announcement number `count` of a provider, not yet handed to the
/// broker; an error where the message type names no family.
pub open spec fn notification(
    message_type: Seq<char>,
    count: i32,
    provider_id: u64,
    created_at: u64,
) -> Result<AnnouncementView, TemplateError> {
    match family_of_word(message_type) {
        Some(family) => Ok(
            AnnouncementView {
                id: 0,
                provider_id,
                family,
                kind: notify_tag(family),
                payload: rendered(document_of(notify_envelope(family, count))),
                attachment: Seq::empty(),
                created_at,
            },
        ),
        None => Err(TemplateError::UnknownMessageType),
    }
}

/// The header of a message, read as a selection or confirmation.
pub open spec fn notice_of(message: MessageView) -> Notice {
    Notice {
        id: message.id,
        sender_id: message.sender_id,
        target_id: message.target_id,
        channel_id: message.channel_id,
    }
}

/// The reason for which a payload that is no envelope is dropped.
pub open spec fn malformed(error: EnvelopeError) -> DropReason {
    match error {
        EnvelopeError::Unparseable => DropReason::Unparseable,
        EnvelopeError::MissingType => DropReason::MissingType,
    }
}

/// What an announcer does about a message whose announcement type is that
/// of a proposal of `family`, given what its payload holds.
pub open spec fn proposal_action(
    engine: EngineView,
    family: Family,
    message: MessageView,
    envelope: Result<EnvelopeView, EnvelopeError>,
) -> ActionView {
    match envelope {
        Err(error) => ActionView::Drop(malformed(error)),
        Ok(held) => if held.type_tag != propose_tag(family) {
            ActionView::Drop(DropReason::UnknownType)
        } else {
            match engine.proposal_verdict(message.id, message.target_id) {
                Some(selection) => ActionView::Select(selection),
                None => ActionView::Drop(DropReason::NotTakenUp),
            }
        },
    }
}

/// The announcer's state after a message whose announcement type is that of
/// a proposal of `family`.
pub open spec fn after_proposal(
    engine: EngineView,
    family: Family,
    message: MessageView,
    envelope: Result<EnvelopeView, EnvelopeError>,
) -> EngineView {
    match envelope {
        Err(_) => engine,
        Ok(held) => if held.type_tag != propose_tag(family) {
            engine
        } else {
            engine.on_proposal_received(message.id, message.target_id, message.sender_id)
        },
    }
}

/// What a counter-proposer does about an announcement of `family`, given
/// what its payload holds: it answers with a proposal of the other family
/// that carries the announcement's correlation number.
pub open spec fn answer_action(
    provider_id: u64,
    family: Family,
    message: MessageView,
    envelope: Result<EnvelopeView, EnvelopeError>,
) -> ActionView {
    match envelope {
        Err(error) => ActionView::Drop(malformed(error)),
        Ok(held) => if held.type_tag != notify_tag(family) {
            ActionView::Drop(DropReason::UnknownType)
        } else {
            ActionView::Propose(
                ProposalView {
                    id: 0,
                    target_id: message.id,
                    sender_id: provider_id,
                    kind: propose_tag(family.opposite()),
                    payload: rendered(document_of(proposal_envelope(family, held.identifier))),
                },
            )
        },
    }
}

/// What a provider does about a selection or confirmation.
pub open spec fn notice_action(engine: EngineView, message: MessageView) -> ActionView {
    match engine.notice_reaction(notice_of(message)) {
        Reaction::Dropped => ActionView::Drop(DropReason::Unmatched),
        Reaction::Confirm(confirmation) => ActionView::Confirm(confirmation),
        Reaction::Matched(channel) => ActionView::Open(channel),
    }
}

/// What the notifier callback for `family` does about a message.
pub open spec fn notifier_action(
    engine: EngineView,
    family: Family,
    message: MessageView,
) -> ActionView {
    if message.name == propose_tag(family) {
        proposal_action(engine, family, message, envelope_of_text(message.payload))
    } else {
        ActionView::Drop(DropReason::UnknownKind)
    }
}

/// The state after the notifier callback for `family` handled a message.
pub open spec fn after_notifier(
    engine: EngineView,
    family: Family,
    message: MessageView,
) -> EngineView {
    if message.name == propose_tag(family) {
        after_proposal(engine, family, message, envelope_of_text(message.payload))
    } else {
        engine
    }
}

/// What the echo callback for `family` does about a message.
pub open spec fn echo_action(engine: EngineView, family: Family, message: MessageView) -> ActionView {
    if message.name == notify_tag(family) {
        answer_action(engine.provider_id, family, message, envelope_of_text(message.payload))
    } else {
        notice_action(engine, message)
    }
}

/// The state after the echo callback for `family` handled a message.
pub open spec fn after_echo(engine: EngineView, family: Family, message: MessageView) -> EngineView {
    if message.name == notify_tag(family) {
        engine
    } else {
        engine.on_selection_or_confirm(notice_of(message))
    }
}

/// Whether two texts are the same.
fn same_text(a: &str, b: &str) -> (r: bool)
    ensures
        r == (a@ == b@),
{
    a.to_owned() == b.to_owned()
}

/// The word for a family.
fn word(family: Family) -> (r: &'static str)
    ensures
        r@ == family_word(family),
{
    match family {
        Family::Supply => "Supply",
        Family::Demand => "Demand",
    }
}

/// The announcement type of an announcement of a family.
fn notify_kind(family: Family) -> (r: &'static str)
    ensures
        r@ == notify_tag(family),
{
    match family {
        Family::Supply => "Template:NotifySupply",
        Family::Demand => "Template:NotifyDemand",
    }
}

/// The announcement type of a proposal of a family.
fn propose_kind(family: Family) -> (r: &'static str)
    ensures
        r@ == propose_tag(family),
{
    match family {
        Family::Supply => "Template:ProposeSupply",
        Family::Demand => "Template:ProposeDemand",
    }
}

/// The text that is written for an optional whole number.
fn number_text(number: Option<i64>) -> (r: String)
    ensures
        r@ == rendered(identifier_json(number)),
{
    let value = optional_integer_value(number);
    render(&value)
}

/// Describes an announcement of `family` whose number is written as `count`.
pub fn describe_notification(family: Family, count: &str) -> (r: String)
    ensures
        r@ == notify_title(family, count@),
{
    word(family).to_owned().concat(" Message from Notify").concat(word(family)).concat(
        " Mode Node. Count = ",
    ).concat(count)
}

/// Describes a proposal that answers an announcement of the family
/// `announced` whose correlation number is written as `identifier`.
pub fn describe_proposal(announced: Family, identifier: &str) -> (r: String)
    ensures
        r@ == proposal_title(announced, identifier@),
{
    word(announced.opposite()).to_owned().concat(" Message from Subscribe").concat(
        word(announced),
    ).concat(" mode node for ").concat(word(announced)).concat("[").concat(identifier).concat("]")
}

/// The payload of the announcement number `count`.
pub fn notify_payload(family: Family, count: i32) -> (r: Envelope)
    ensures
        r@ == notify_envelope(family, count),
{
    let number = count as i64;
    Envelope {
        context_tag: "https://schema.org/".to_owned(),
        id: "notify_node".to_owned(),
        type_tag: notify_kind(family).to_owned(),
        name: describe_notification(family, number_text(Some(number)).as_str()),
        identifier: optional_integer_value(Some(number)),
    }
}

/// The payload of a proposal that answers an announcement of the family
/// `announced`: it carries the announcement's correlation number as it
/// stands, and names it in its description.
pub fn proposal_payload(announced: Family, identifier: serde_json::Value) -> (r: Envelope)
    ensures
        r@ == proposal_envelope(announced, content(identifier)),
{
    Envelope {
        context_tag: "https://schema.org/".to_owned(),
        id: "supply_node".to_owned(),
        type_tag: propose_kind(announced.opposite()).to_owned(),
        name: describe_proposal(announced, render(&identifier).as_str()),
        identifier,
    }
}

/// The first frame that a counter-proposer sends on the channel of a match
/// that began with an announcement of the family `announced`.
pub fn first_frame(announced: Family, channel_id: u64) -> (r: ChannelFrame)
    ensures
        r@ == data_frame(announced, channel_id),
{
    let mut bytes: Vec<u8> = Vec::new();
    match announced {
        Family::Supply => {
            bytes.push(0);
            bytes.push(1);
            bytes.push(2);
        },
        Family::Demand => {
            bytes.push(3);
            bytes.push(4);
            bytes.push(5);
        },
    }
    assert(bytes@ =~= data_bytes(announced));
    ChannelFrame {
        frame_id: 0,
        sender_id: 0,
        target_id: 0,
        mbus_id: channel_id,
        kind: 0,
        info: "data".to_owned(),
        payload: String::new(),
        attachment: Some(bytes),
    }
}

/// The outcome of building an announcement, as a mathematical value.
pub open spec fn notification_view(outcome: Result<Announcement, TemplateError>) -> Result<
    AnnouncementView,
    TemplateError,
> {
    match outcome {
        Ok(announcement) => Ok(announcement@),
        Err(error) => Err(error),
    }
}

/// Builds the announcement number `count` of the provider `provider_id`,
/// for the caller to hand to the broker and then to `Engine::announce`.
///
/// `message_type` is `Supply` for an Offer or `Demand` for a Request; any
/// other message type is an error and nothing is to be sent.
pub fn run_notify(message_type: &str, count: i32, provider_id: u64, created_at: u64) -> (r: Result<
    Announcement,
    TemplateError,
>)
    ensures
        notification_view(r) == notification(message_type@, count, provider_id, created_at),
{
    let family = if same_text(message_type, "Supply") {
        Family::Supply
    } else if same_text(message_type, "Demand") {
        Family::Demand
    } else {
        return Err(TemplateError::UnknownMessageType);
    };
    Ok(
        Announcement {
            id: 0,
            provider_id,
            family,
            kind: notify_kind(family).to_owned(),
            payload: notify_payload(family, count).to_text(),
            attachment: Vec::new(),
            created_at,
        },
    )
}

/// The reason for which a payload that is no envelope is dropped.
fn malformed_reason(error: EnvelopeError) -> (r: DropReason)
    ensures
        r == malformed(error),
{
    match error {
        EnvelopeError::Unparseable => DropReason::Unparseable,
        EnvelopeError::MissingType => DropReason::MissingType,
    }
}

/// Decides, for an announcer, on a message whose announcement type is that
/// of a proposal of `family`, given what its payload was read as.
///
/// A payload that is no envelope or has another discriminator is dropped.
/// Else the engine takes the proposal up, or not: where it does, the
/// selection to send is returned.
pub fn take_proposal(
    engine: &mut Engine,
    family: Family,
    message: &Message,
    envelope: Result<Envelope, EnvelopeError>,
) -> (r: Action)
    requires
        old(engine).wf(),
    ensures
        final(engine).wf(),
        old(engine)@.keeps_records(final(engine)@),
        r@ is Select ==> final(engine)@.has_proposal(message.id),
        r@ == proposal_action(old(engine)@, family, message@, outcome_view(envelope)),
        final(engine)@ == after_proposal(old(engine)@, family, message@, outcome_view(envelope)),
{
    match envelope {
        Err(error) => Action::Drop(malformed_reason(error)),
        Ok(held) => {
            if !same_text(held.type_tag.as_str(), propose_kind(family)) {
                return Action::Drop(DropReason::UnknownType);
            }
            let proposal = Proposal {
                id: message.id,
                target_id: message.target_id,
                sender_id: message.sender_id,
                kind: message.name.clone(),
                payload: message.payload.clone(),
            };
            match engine.on_proposal_received(&proposal) {
                Some(selection) => Action::Select(selection),
                None => Action::Drop(DropReason::NotTakenUp),
            }
        },
    }
}

/// Decides, for a counter-proposer, on an announcement of `family`, given
/// what its payload was read as.
///
/// A payload that is no envelope or has another discriminator is dropped.
/// Else the proposal to send is returned: it answers the announcement, is of
/// the other family, and carries the announcement's correlation number.
pub fn answer(
    provider_id: u64,
    family: Family,
    message: &Message,
    envelope: Result<Envelope, EnvelopeError>,
) -> (r: Action)
    ensures
        r@ == answer_action(provider_id, family, message@, outcome_view(envelope)),
{
    match envelope {
        Err(error) => Action::Drop(malformed_reason(error)),
        Ok(held) => {
            if !same_text(held.type_tag.as_str(), notify_kind(family)) {
                return Action::Drop(DropReason::UnknownType);
            }
            Action::Propose(
                Proposal {
                    id: 0,
                    target_id: message.id,
                    sender_id: provider_id,
                    kind: propose_kind(family.opposite()).to_owned(),
                    payload: proposal_payload(family, held.identifier).to_text(),
                },
            )
        },
    }
}

/// Decides on a selection or confirmation.
///
/// The message is dropped unless the ledger holds its target. Else the
/// ledger entry is consumed and the engine's reaction is returned: the
/// confirmation to send (counter-proposer) or the channel to open (announcer).
pub fn on_notice(engine: &mut Engine, message: &Message) -> (r: Action)
    requires
        old(engine).wf(),
    ensures
        final(engine).wf(),
        old(engine)@.keeps_records(final(engine)@),
        !(r@ is Drop) ==> final(engine)@.has_proposal(message.target_id),
        r@ == notice_action(old(engine)@, message@),
        final(engine)@ == old(engine)@.on_selection_or_confirm(notice_of(message@)),
{
    let notice = Notice {
        id: message.id,
        sender_id: message.sender_id,
        target_id: message.target_id,
        channel_id: message.channel_id,
    };
    match engine.on_selection_or_confirm(notice) {
        Reaction::Dropped => Action::Drop(DropReason::Unmatched),
        Reaction::Confirm(confirmation) => Action::Confirm(confirmation),
        Reaction::Matched(channel) => Action::Open(channel),
    }
}

/// The callback of an announcer for the messages of `family` that it
/// subscribed to: proposals that answer its announcements.
///
/// A message of another announcement type is dropped as unknown. A proposal
/// is read and decided on as `take_proposal` says.
pub fn callback_notifier(engine: &mut Engine, family: Family, message: &Message) -> (r: Action)
    requires
        old(engine).wf(),
    ensures
        final(engine).wf(),
        old(engine)@.keeps_records(final(engine)@),
        r@ is Select ==> final(engine)@.has_proposal(message.id),
        r@ == notifier_action(old(engine)@, family, message@),
        final(engine)@ == after_notifier(old(engine)@, family, message@),
{
    if !same_text(message.name.as_str(), propose_kind(family)) {
        return Action::Drop(DropReason::UnknownKind);
    }
    let envelope = Envelope::parse(message.payload.as_str());
    take_proposal(engine, family, message, envelope)
}

/// The callback of a counter-proposer for the messages of `family` that it
/// subscribed to.
///
/// An announcement of that family is read and answered as `answer` says.
/// Any other message is taken for the selection of one of the provider's
/// proposals and decided on as `on_notice` says.
pub fn callback_echo(engine: &mut Engine, family: Family, message: &Message) -> (r: Action)
    requires
        old(engine).wf(),
    ensures
        final(engine).wf(),
        old(engine)@.keeps_records(final(engine)@),
        r@ is Confirm ==> final(engine)@.has_proposal(message.target_id),
        r@ == echo_action(old(engine)@, family, message@),
        final(engine)@ == after_echo(old(engine)@, family, message@),
{
    if same_text(message.name.as_str(), notify_kind(family)) {
        let envelope = Envelope::parse(message.payload.as_str());
        answer(engine.provider_id(), family, message, envelope)
    } else {
        on_notice(engine, message)
    }
}

/// The notifier callback for supply messages.
pub fn supply_callback_notifier(engine: &mut Engine, message: &Message) -> (r: Action)
    requires
        old(engine).wf(),
    ensures
        final(engine).wf(),
        old(engine)@.keeps_records(final(engine)@),
        r@ is Select ==> final(engine)@.has_proposal(message.id),
        r@ == notifier_action(old(engine)@, Family::Supply, message@),
        final(engine)@ == after_notifier(old(engine)@, Family::Supply, message@),
{
    callback_notifier(engine, Family::Supply, message)
}

/// The notifier callback for demand messages.
pub fn demand_callback_notifier(engine: &mut Engine, message: &Message) -> (r: Action)
    requires
        old(engine).wf(),
    ensures
        final(engine).wf(),
        old(engine)@.keeps_records(final(engine)@),
        r@ is Select ==> final(engine)@.has_proposal(message.id),
        r@ == notifier_action(old(engine)@, Family::Demand, message@),
        final(engine)@ == after_notifier(old(engine)@, Family::Demand, message@),
{
    callback_notifier(engine, Family::Demand, message)
}

/// The echo callback for supply messages.
pub fn supply_callback_echo(engine: &mut Engine, message: &Message) -> (r: Action)
    requires
        old(engine).wf(),
    ensures
        final(engine).wf(),
        old(engine)@.keeps_records(final(engine)@),
        r@ is Confirm ==> final(engine)@.has_proposal(message.target_id),
        r@ == echo_action(old(engine)@, Family::Supply, message@),
        final(engine)@ == after_echo(old(engine)@, Family::Supply, message@),
{
    callback_echo(engine, Family::Supply, message)
}

/// The echo callback for demand messages.
pub fn demand_callback_echo(engine: &mut Engine, message: &Message) -> (r: Action)
    requires
        old(engine).wf(),
    ensures
        final(engine).wf(),
        old(engine)@.keeps_records(final(engine)@),
        r@ is Confirm ==> final(engine)@.has_proposal(message.target_id),
        r@ == echo_action(old(engine)@, Family::Demand, message@),
        final(engine)@ == after_echo(old(engine)@, Family::Demand, message@),
{
    callback_echo(engine, Family::Demand, message)
}

/// The confirmation that the broker's answer to a selection stands for.
pub open spec fn implied_confirmation(proposal_id: u64, channel_id: u64) -> Notice {
    Notice { id: 0, sender_id: 0, target_id: proposal_id, channel_id }
}

/// The announcer's state after the selection of `proposal_id` was settled:
/// where it is committed, the round went on through the implied
/// confirmation to the open channel; else as the engine leaves it, with the
/// announcement open again where the send failed.
pub open spec fn after_selection(
    engine: EngineView,
    proposal_id: u64,
    outcome: Option<u64>,
) -> EngineView {
    if engine.selects(proposal_id, outcome) {
        engine.select(proposal_id, outcome).on_selection_or_confirm(
            implied_confirmation(proposal_id, outcome->0),
        ).open_channel(proposal_id)
    } else {
        engine.select(proposal_id, outcome)
    }
}

/// The channel that is open after the selection of `proposal_id` was
/// settled; none where the selection is not committed.
pub open spec fn selection_channel(
    engine: EngineView,
    proposal_id: u64,
    outcome: Option<u64>,
) -> Option<Channel> {
    if engine.selects(proposal_id, outcome) {
        engine.select(proposal_id, outcome).on_selection_or_confirm(
            implied_confirmation(proposal_id, outcome->0),
        ).open_channel_outcome(proposal_id)
    } else {
        None
    }
}

/// Settles a selection after it was handed to the broker.
///
/// `outcome` is the channel that the broker set up, or `None` or 0 where the
/// send failed. The broker of the template answers a selection only once
/// the proposer has confirmed it, so a successful outcome stands for the
/// confirmation too: the selection is committed, the confirmation accepted,
/// and the channel opened and returned for the caller to subscribe to. On
/// failure nothing is retried: the proposal is let go and the announcement
/// is open again to the next proposal.
pub fn settle_selection(engine: &mut Engine, selection: Selection, outcome: Option<u64>) -> (r:
    Option<Channel>)
    requires
        old(engine).wf(),
    ensures
        final(engine).wf(),
        old(engine)@.keeps_records_but(final(engine)@, selection.proposal_id),
        r == selection_channel(old(engine)@, selection.proposal_id, outcome),
        final(engine)@ == after_selection(old(engine)@, selection.proposal_id, outcome),
        r is Some <==> old(engine)@.selects(selection.proposal_id, outcome),
        match r {
            Some(channel) => channel.channel_id == outcome->0
                && final(engine)@.channels.contains_key(channel.channel_id)
                && final(engine)@.channels[channel.channel_id].channel == channel,
            None => final(engine)@ == old(engine)@.select(selection.proposal_id, outcome),
        },
{
    if !engine.select(selection.proposal_id, outcome) {
        return None;
    }
    let channel_id = match outcome {
        Some(channel_id) => channel_id,
        None => 0,
    };
    let notice = Notice { id: 0, sender_id: 0, target_id: selection.proposal_id, channel_id };
    proof {
        old(engine).lemma_wf_inv();
        old(engine)@.lemma_selected_opens(selection.proposal_id, outcome, notice);
    }
    let _ = engine.on_selection_or_confirm(notice);
    proof {
        engine.lemma_wf_inv();
        engine@.lemma_opened_channel(selection.proposal_id);
    }
    engine.open_channel(selection.proposal_id)
}

/// The counter-proposer's state after a delivered confirmation for
/// `target_id` was settled: the round is matched, its channel is open, and
/// `frame` is queued on `channel`.
pub open spec fn after_confirmation(
    engine: EngineView,
    target_id: u64,
    channel: Channel,
    frame: ChannelFrame,
) -> EngineView {
    engine.confirm(target_id, true).open_channel(target_id).send_frame(channel, frame)
}

/// Settles a confirmation after it was handed to the broker.
///
/// Where the confirmation for `target_id` was under way and was delivered,
/// the channel of the match is opened, the counter-proposer's first frame is
/// queued on it, and the channel is returned for the caller to subscribe to
/// and to send the queued frame on. Where it was not delivered the proposal
/// awaits a selection again; nothing is retried.
pub fn settle_confirmation(
    engine: &mut Engine,
    announced: Family,
    target_id: u64,
    delivered: bool,
) -> (r: Option<Channel>)
    requires
        old(engine).wf(),
    ensures
        final(engine).wf(),
        old(engine)@.keeps_records(final(engine)@),
        r == if old(engine)@.confirming(target_id) && delivered {
            old(engine)@.confirm(target_id, delivered).open_channel_outcome(target_id)
        } else {
            None
        },
        r is Some <==> old(engine)@.confirming(target_id) && delivered,
        r matches Some(channel) ==> final(engine)@.channels.contains_key(channel.channel_id)
            && final(engine)@.channels[channel.channel_id].channel == channel,
        match r {
            Some(channel) => exists|frame: ChannelFrame| #[trigger]
                frame@ == data_frame(announced, channel.channel_id)
                    && final(engine)@ == after_confirmation(old(engine)@, target_id, channel, frame),
            None => final(engine)@ == old(engine)@.confirm(target_id, delivered),
        },
{
    match engine.confirm(target_id, delivered) {
        Some(_) => {
            proof {
                engine.lemma_wf_inv();
                old(engine).lemma_wf_inv();
                old(engine)@.lemma_confirmed_opens(target_id);
            }
            match engine.open_channel(target_id) {
                Some(channel) => {
                    let frame = first_frame(announced, channel.channel_id);
                    let _ = engine.send_frame(channel, frame);
                    Some(channel)
                },
                None => None,
            }
        },
        None => None,
    }
}

/// How a provider of the template starts, by its mode and message type.
pub open spec fn plan_of(mode: Seq<char>, message_type: Seq<char>) -> Result<Plan, TemplateError> {
    if mode == "notify"@ {
        match family_of_word(message_type) {
            Some(Family::Supply) => Ok(
                Plan {
                    role: Role::Announcer,
                    announces: Some(Family::Supply),
                    listens: Family::Demand,
                    handler: Handler::DemandNotifier,
                    frames: Handler::ChannelNotifier,
                },
            ),
            Some(Family::Demand) => Ok(
                Plan {
                    role: Role::Announcer,
                    announces: Some(Family::Demand),
                    listens: Family::Supply,
                    handler: Handler::SupplyNotifier,
                    frames: Handler::ChannelNotifier,
                },
            ),
            None => Err(TemplateError::UnknownMessageType),
        }
    } else if mode == "subscribe"@ {
        match family_of_word(message_type) {
            Some(Family::Supply) => Ok(
                Plan {
                    role: Role::CounterProposer,
                    announces: None,
                    listens: Family::Supply,
                    handler: Handler::SupplyEcho,
                    frames: Handler::ChannelSubscriber,
                },
            ),
            Some(Family::Demand) => Ok(
                Plan {
                    role: Role::CounterProposer,
                    announces: None,
                    listens: Family::Demand,
                    handler: Handler::DemandEcho,
                    frames: Handler::ChannelSubscriber,
                },
            ),
            None => Err(TemplateError::UnknownMessageType),
        }
    } else {
        Err(TemplateError::UnknownMode)
    }
}

/// Decides how the provider starts.
///
/// In mode `notify` the provider announces the family that the message type
/// names and subscribes to the other one, to select among the proposals
/// that answer. In mode `subscribe` it subscribes to the family that the
/// message type names, to answer its announcements.
pub fn subscription_plan(mode: &str, message_type: &str) -> (r: Result<Plan, TemplateError>)
    ensures
        r == plan_of(mode@, message_type@),
{
    let notifies = same_text(mode, "notify");
    if !notifies && !same_text(mode, "subscribe") {
        return Err(TemplateError::UnknownMode);
    }
    let family = if same_text(message_type, "Supply") {
        Family::Supply
    } else if same_text(message_type, "Demand") {
        Family::Demand
    } else {
        return Err(TemplateError::UnknownMessageType);
    };
    if notifies {
        Ok(
            Plan {
                role: Role::Announcer,
                announces: Some(family),
                listens: family.opposite(),
                handler: match family {
                    Family::Supply => Handler::DemandNotifier,
                    Family::Demand => Handler::SupplyNotifier,
                },
                frames: Handler::ChannelNotifier,
            },
        )
    } else {
        Ok(
            Plan {
                role: Role::CounterProposer,
                announces: None,
                listens: family,
                handler: match family {
                    Family::Supply => Handler::SupplyEcho,
                    Family::Demand => Handler::DemandEcho,
                },
                frames: Handler::ChannelSubscriber,
            },
        )
    }
}

/// The kind of an announcement of a family.
pub open spec fn announcement_kind(family: Family) -> MessageKind {
    match family {
        Family::Supply => MessageKind::Offer,
        Family::Demand => MessageKind::Request,
    }
}

/// The kind of a delivered message, for a provider that plays `role` and
/// subscribed to the messages of the family `listens`.
///
/// A counter-proposer takes an announcement of that family for what it is,
/// and every other message for the selection of one of its proposals. An
/// announcer takes a proposal of that family for what it is, and every other
/// message for a confirmation.
pub open spec fn kind_of(role: Role, listens: Family, name: Seq<char>) -> MessageKind {
    match role {
        Role::CounterProposer => if name == notify_tag(listens) {
            announcement_kind(listens)
        } else {
            MessageKind::Selection
        },
        Role::Announcer => if name == propose_tag(listens) {
            MessageKind::Proposal
        } else {
            MessageKind::Confirm
        },
    }
}

/// The kind of a delivered message, for the router.
pub fn classify(role: Role, listens: Family, name: &str) -> (r: MessageKind)
    ensures
        r == kind_of(role, listens, name@),
{
    match role {
        Role::CounterProposer => {
            if same_text(name, notify_kind(listens)) {
                match listens {
                    Family::Supply => MessageKind::Offer,
                    Family::Demand => MessageKind::Request,
                }
            } else {
                MessageKind::Selection
            }
        },
        Role::Announcer => {
            if same_text(name, propose_kind(listens)) {
                MessageKind::Proposal
            } else {
                MessageKind::Confirm
            }
        },
    }
}

impl Plan {
    /// The handlers that the plan registers: an announcer's handler takes
    /// proposals, a counter-proposer's takes the announcements of its family
    /// and selections, and each has its handler for channel frames.
    pub open spec fn routes(self) -> Map<MessageKind, Handler> {
        match self.role {
            Role::Announcer => map![
                MessageKind::Proposal => self.handler,
                MessageKind::Frame => self.frames,
            ],
            Role::CounterProposer => map![
                announcement_kind(self.listens) => self.handler,
                MessageKind::Selection => self.handler,
                MessageKind::Frame => self.frames,
            ],
        }
    }

    /// A router with the handlers of the plan.
    pub fn router(&self) -> (r: Router)
        ensures
            r@ == self.routes(),
    {
        let mut router = Router::new();
        match self.role {
            Role::Announcer => {
                router.register(MessageKind::Proposal, self.handler);
            },
            Role::CounterProposer => {
                let kind = match self.listens {
                    Family::Supply => MessageKind::Offer,
                    Family::Demand => MessageKind::Request,
                };
                router.register(kind, self.handler);
                router.register(MessageKind::Selection, self.handler);
            },
        }
        router.register(MessageKind::Frame, self.frames);
        router
    }
}


/// What a handler does about a message: a callback decides on messages; a
/// handler for channel frames takes none.
pub open spec fn handler_action(
    handler: Handler,
    engine: EngineView,
    message: MessageView,
) -> ActionView {
    match handler {
        Handler::SupplyNotifier => notifier_action(engine, Family::Supply, message),
        Handler::DemandNotifier => notifier_action(engine, Family::Demand, message),
        Handler::SupplyEcho => echo_action(engine, Family::Supply, message),
        Handler::DemandEcho => echo_action(engine, Family::Demand, message),
        Handler::ChannelNotifier | Handler::ChannelSubscriber => ActionView::Drop(
            DropReason::UnknownKind,
        ),
    }
}

/// The state after a handler handled a message.
pub open spec fn after_handler(
    handler: Handler,
    engine: EngineView,
    message: MessageView,
) -> EngineView {
    match handler {
        Handler::SupplyNotifier => after_notifier(engine, Family::Supply, message),
        Handler::DemandNotifier => after_notifier(engine, Family::Demand, message),
        Handler::SupplyEcho => after_echo(engine, Family::Supply, message),
        Handler::DemandEcho => after_echo(engine, Family::Demand, message),
        Handler::ChannelNotifier | Handler::ChannelSubscriber => engine,
    }
}

/// What a provider that subscribed to the family `listens` does about a
/// delivered message: what the handler registered for its kind does, or
/// nothing where none is registered.
pub open spec fn dispatch_action(
    handlers: Map<MessageKind, Handler>,
    listens: Family,
    engine: EngineView,
    message: MessageView,
) -> ActionView {
    let kind = kind_of(engine.role, listens, message.name);
    if handlers.contains_key(kind) {
        handler_action(handlers[kind], engine, message)
    } else {
        ActionView::Drop(DropReason::UnknownKind)
    }
}

/// The state after a provider dispatched a delivered message.
pub open spec fn after_dispatch(
    handlers: Map<MessageKind, Handler>,
    listens: Family,
    engine: EngineView,
    message: MessageView,
) -> EngineView {
    let kind = kind_of(engine.role, listens, message.name);
    if handlers.contains_key(kind) {
        after_handler(handlers[kind], engine, message)
    } else {
        engine
    }
}

/// Dispatches one message that was delivered on the subscription to the
/// family `listens`: finds its kind, asks the router for the handler of that
/// kind, and lets that handler decide. A message of a kind without handler
/// is dropped as unknown, and so is a message that is routed to a handler
/// for channel frames. Each message reaches at most one handler, once.
pub fn dispatch(router: &Router, listens: Family, engine: &mut Engine, message: &Message) -> (r:
    Action)
    requires
        old(engine).wf(),
    ensures
        final(engine).wf(),
        old(engine)@.keeps_records(final(engine)@),
        r@ is Select ==> final(engine)@.has_proposal(message.id),
        r@ is Confirm ==> final(engine)@.has_proposal(message.target_id),
        r@ == dispatch_action(router@, listens, old(engine)@, message@),
        final(engine)@ == after_dispatch(router@, listens, old(engine)@, message@),
{
    let kind = classify(engine.role(), listens, message.name.as_str());
    match router.dispatch(kind) {
        Some(Handler::SupplyNotifier) => supply_callback_notifier(engine, message),
        Some(Handler::DemandNotifier) => demand_callback_notifier(engine, message),
        Some(Handler::SupplyEcho) => supply_callback_echo(engine, message),
        Some(Handler::DemandEcho) => demand_callback_echo(engine, message),
        Some(Handler::ChannelNotifier) | Some(Handler::ChannelSubscriber) | None => Action::Drop(
            DropReason::UnknownKind,
        ),
    }
}

/// The document of the proposal that answers an announcement of the family
/// `announced` whose payload holds the document `doc`.
pub open spec fn answer_document(announced: Family, doc: Json) -> Json {
    document_of(proposal_envelope(announced, member_or_null(doc, "schema:identifier"@)))
}

/// A proposal carries the correlation number of the announcement that it
/// answers: the member `schema:identifier` of the document that is written
/// for the proposal is that member of the announcement's document, whatever
/// it holds, and null where the announcement has none.
pub proof fn lemma_answer_carries_identifier(
    provider_id: u64,
    family: Family,
    message: MessageView,
    doc: Json,
)
    requires
        envelope_of(doc) matches Ok(held) && held.type_tag == notify_tag(family),
    ensures
        answer_action(provider_id, family, message, envelope_of(doc)) matches ActionView::Propose(
            proposal,
        ) && proposal.payload == rendered(answer_document(family, doc)),
        member_or_null(answer_document(family, doc), "schema:identifier"@) == member_or_null(
            doc,
            "schema:identifier"@,
        ),
{
    reveal_strlit("@context");
    reveal_strlit("@id");
    reveal_strlit("@type");
    reveal_strlit("schema:name");
    reveal_strlit("schema:identifier");
    assert("@context"@.len() == 8);
    assert("@id"@.len() == 3);
    assert("@type"@.len() == 5);
    assert("schema:name"@.len() == 11);
    assert("schema:identifier"@.len() == 17);
}

/// An announcer's callback selects the proposal that answers an open
/// announcement of its own: for a message of the proposal's announcement
/// type, whose payload holds the matching discriminator and whose identifier
/// is set and held by no round yet, the action is the selection of exactly
/// that proposal for that announcement.
pub proof fn lemma_notifier_selects(engine: EngineView, family: Family, message: MessageView)
    requires
        engine.inv(),
        engine.role == Role::Announcer,
        engine.has_announcement(message.target_id),
        engine.rounds[engine.announcement_slot(message.target_id)].phase
            == crate::state::Phase::Open,
        message.id != 0,
        !engine.has_proposal(message.id),
        message.name == propose_tag(family),
        envelope_of_text(message.payload) matches Ok(held) && held.type_tag == propose_tag(family),
    ensures
        notifier_action(engine, family, message) == ActionView::Select(
            Selection { proposal_id: message.id, announcement_id: message.target_id },
        ),
        after_notifier(engine, family, message) == engine.on_proposal_received(
            message.id,
            message.target_id,
            message.sender_id,
        ),
{
}

/// With the handlers of its plan, a provider does about every message what
/// the callback of the plan does: nothing is lost on the way through the
/// router. For a counter-proposer that is every message that is no
/// announcement of its family, taken for a selection.
pub proof fn lemma_dispatch_is_the_callback(
    mode: Seq<char>,
    message_type: Seq<char>,
    engine: EngineView,
    message: MessageView,
)
    requires
        plan_of(mode, message_type) is Ok,
        engine.role == plan_of(mode, message_type)->Ok_0.role,
    ensures
        ({
            let plan = plan_of(mode, message_type)->Ok_0;
            &&& dispatch_action(plan.routes(), plan.listens, engine, message) == handler_action(
                plan.handler,
                engine,
                message,
            )
            &&& after_dispatch(plan.routes(), plan.listens, engine, message) == after_handler(
                plan.handler,
                engine,
                message,
            )
        }),
{
}

} // verus!

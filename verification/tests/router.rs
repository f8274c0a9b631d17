use sx_provider::records::MessageKind;
use sx_provider::router::{Handler, Router};

const KINDS: [MessageKind; 6] = [
    MessageKind::Offer,
    MessageKind::Request,
    MessageKind::Proposal,
    MessageKind::Selection,
    MessageKind::Confirm,
    MessageKind::Frame,
];

#[test]
fn router_without_handlers_dispatches_nothing() {
    let router = Router::new();
    for kind in KINDS {
        assert_eq!(router.dispatch(kind), None);
    }
}

#[test]
fn router_dispatches_to_the_handler_of_the_kind() {
    let mut router = Router::new();
    assert_eq!(router.register(MessageKind::Offer, Handler::SupplyEcho), None);
    assert_eq!(router.register(MessageKind::Frame, Handler::ChannelSubscriber), None);
    assert_eq!(router.dispatch(MessageKind::Offer), Some(Handler::SupplyEcho));
    assert_eq!(router.dispatch(MessageKind::Frame), Some(Handler::ChannelSubscriber));
    assert_eq!(router.dispatch(MessageKind::Request), None);
    assert_eq!(router.dispatch(MessageKind::Proposal), None);
    assert_eq!(router.dispatch(MessageKind::Selection), None);
    assert_eq!(router.dispatch(MessageKind::Confirm), None);
}

#[test]
fn router_registering_again_replaces_the_handler() {
    let mut router = Router::new();
    assert_eq!(router.register(MessageKind::Proposal, Handler::SupplyNotifier), None);
    assert_eq!(
        router.register(MessageKind::Proposal, Handler::DemandNotifier),
        Some(Handler::SupplyNotifier)
    );
    assert_eq!(router.dispatch(MessageKind::Proposal), Some(Handler::DemandNotifier));
}

#[test]
fn router_keeps_one_slot_for_each_kind() {
    let handlers = [
        Handler::SupplyNotifier,
        Handler::DemandNotifier,
        Handler::SupplyEcho,
        Handler::DemandEcho,
        Handler::ChannelNotifier,
        Handler::ChannelSubscriber,
    ];
    let mut router = Router::new();
    for (kind, handler) in KINDS.iter().zip(handlers.iter()) {
        assert_eq!(router.register(*kind, *handler), None);
    }
    for (kind, handler) in KINDS.iter().zip(handlers.iter()) {
        assert_eq!(router.dispatch(*kind), Some(*handler));
    }
}

#[test]
fn router_dispatch_does_not_consume_the_handler() {
    let mut router = Router::new();
    router.register(MessageKind::Selection, Handler::DemandEcho);
    assert_eq!(router.dispatch(MessageKind::Selection), Some(Handler::DemandEcho));
    assert_eq!(router.dispatch(MessageKind::Selection), Some(Handler::DemandEcho));
}

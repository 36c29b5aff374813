use elfo_addr::addr::{Addr, GroupNo, NodeNo};
use elfo_addr::envelope::{Envelope, MessageKind};
use elfo_addr::group::{Outcome, RestartPolicy, Router, TerminationPolicy};
use elfo_addr::network::{
    new, route, ActorKey, GroupInfo, HandleConnection, NetworkRouter, UpdateConfig,
};

fn info(node: u16, group: u8, name: &str) -> GroupInfo {
    GroupInfo {
        node_no: NodeNo::from_bits(node).unwrap(),
        group_no: GroupNo::from_bits(group).unwrap(),
        group_name: name.to_string(),
    }
}

#[test]
fn actor_key_display() {
    assert_eq!(ActorKey::Discovery.to_string(), "discovery");
    let key = ActorKey::Worker { local: info(1, 2, "gateway"), remote: info(42, 3, "storage") };
    assert_eq!(key.to_string(), "gateway:42:storage");
}

#[test]
fn update_config_goes_to_discovery() {
    let envelope = Envelope::new(UpdateConfig {}, MessageKind::Regular { sender: Addr::null() });
    let outcome = route(&envelope.upcast());
    assert!(matches!(outcome, Outcome::Unicast(ActorKey::Discovery)));
}

#[test]
fn handle_connection_goes_to_worker() {
    let message = HandleConnection { local: info(1, 2, "gateway"), remote: info(42, 3, "storage") };
    let envelope = Envelope::new(message, MessageKind::Regular { sender: Addr::null() }).upcast();
    let router = NetworkRouter {};
    match router.route(&envelope) {
        Outcome::Unicast(key) => assert_eq!(
            key,
            ActorKey::Worker { local: info(1, 2, "gateway"), remote: info(42, 3, "storage") }
        ),
        _ => panic!("a connection is routed to its worker"),
    }
}

#[test]
fn network_blueprint_routes() {
    let blueprint = new(());
    let update = Envelope::new(UpdateConfig {}, MessageKind::Regular { sender: Addr::null() });
    assert!(matches!(
        blueprint.router.route(&update.upcast()),
        Outcome::Unicast(ActorKey::Discovery)
    ));
}

#[test]
fn network_blueprint() {
    let blueprint = new(5u8);
    assert_eq!(blueprint.restart_policy, RestartPolicy::never());
    assert_eq!(blueprint.termination_policy, TerminationPolicy::closing());
    assert_eq!(blueprint.body, 5);
}

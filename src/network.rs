//! The network group: routing keys of its actors, the messages that decide
//! them, and the group's blueprint.

use crate::addr::{GroupNo, NodeNo};
use crate::envelope::{
    erased_as, AnyMessage, Envelope, EnvelopeBorrowed, Message, Value,
};
use crate::group::{ActorGroup, Blueprint, Outcome, RestartMode, RestartPolicy, Router};
use crate::text::{decimal, push_decimal};
use vstd::prelude::*;

verus! {

/// Tag of `UpdateConfig` among erased messages.
pub const UPDATE_CONFIG_TAG: u64 = 1;

/// Tag of `HandleConnection` among erased messages.
pub const HANDLE_CONNECTION_TAG: u64 = 2;

// === Messages ===

/// A group of some node, as seen by the network.
#[derive(Debug, Clone, PartialEq, Eq, Hash)]
pub struct GroupInfo {
    pub node_no: NodeNo,
    pub group_no: GroupNo,
    pub group_name: String,
}

/// The group that the values `v[0..3]` describe: node number, group number
/// and name.
pub open spec fn group_info_decoded(v: Seq<Value>) -> Option<GroupInfo> {
    match (v[0], v[1], v[2]) {
        (Value::Int(n), Value::Int(g), Value::Text(name)) => {
            if 0 < n < 0x1_0000 && 0 < g < 0x100 {
                Some(
                    GroupInfo {
                        node_no: NodeNo::spec_from_bits(n as u16),
                        group_no: GroupNo::spec_from_bits(g as u8),
                        group_name: name,
                    },
                )
            } else {
                None
            }
        },
        _ => None,
    }
}

/// The values that describe group `g`.
pub open spec fn group_info_encoded(g: GroupInfo) -> Seq<Value> {
    seq![
        Value::Int(g.node_no@ as u64),
        Value::Int(g.group_no@ as u64),
        Value::Text(g.group_name),
    ]
}

pub open spec fn group_info_well_formed(g: GroupInfo) -> bool {
    g.node_no@ != 0 && g.group_no@ != 0
}

proof fn lemma_group_info_round_trip(g: GroupInfo)
    requires
        group_info_well_formed(g),
    ensures
        group_info_decoded(group_info_encoded(g)) == Some(g),
{
    g.node_no.lemma_spec_from_bits(0);
    g.group_no.lemma_spec_from_bits(0);
}

/// Takes the last three values, which describe a group, off `values`.
fn pop_group_info(values: &mut Vec<Value>) -> (r: Option<GroupInfo>)
    requires
        old(values)@.len() >= 3,
    ensures
        final(values)@ == old(values)@.subrange(0, old(values)@.len() - 3),
        r == group_info_decoded(old(values)@.subrange(old(values)@.len() - 3, old(values)@.len() as int)),
{
    let ghost v = values@;
    let name = values.pop().unwrap();
    let group = values.pop().unwrap();
    let node = values.pop().unwrap();
    assert(values@ =~= v.subrange(0, v.len() - 3));
    let ghost tail = v.subrange(v.len() - 3, v.len() as int);
    assert(tail[0] == node && tail[1] == group && tail[2] == name);
    match (node, group, name) {
        (Value::Int(n), Value::Int(g), Value::Text(group_name)) => {
            if n == 0 || n >= 0x1_0000 || g == 0 || g >= 0x100 {
                return None;
            }
            let node_no = NodeNo::from_bits(n as u16).unwrap();
            let group_no = GroupNo::from_bits(g as u8).unwrap();
            Some(GroupInfo { node_no, group_no, group_name })
        },
        _ => None,
    }
}

/// Announces a new configuration of the group.
#[derive(Debug, Clone, PartialEq, Eq)]
pub struct UpdateConfig {}

impl Message for UpdateConfig {
    open spec fn type_tag() -> u64 {
        UPDATE_CONFIG_TAG
    }

    open spec fn encoded(&self) -> Seq<Value> {
        seq![]
    }

    open spec fn decoded(values: Seq<Value>) -> Option<UpdateConfig> {
        if values.len() == 0 {
            Some(UpdateConfig {  })
        } else {
            None
        }
    }

    open spec fn well_formed(&self) -> bool {
        true
    }

    fn tag() -> (r: u64) {
        UPDATE_CONFIG_TAG
    }

    fn encode(self) -> (r: Vec<Value>) {
        Vec::new()
    }

    fn decode(values: Vec<Value>) -> (r: Option<UpdateConfig>) {
        if values.len() == 0 {
            Some(UpdateConfig {  })
        } else {
            None
        }
    }

    proof fn lemma_decode_encode(m: UpdateConfig) {
    }
}

/// Asks the group to serve a connection between a local and a remote group.
#[derive(Debug, Clone, PartialEq, Eq)]
pub struct HandleConnection {
    pub local: GroupInfo,
    pub remote: GroupInfo,
}

impl Message for HandleConnection {
    open spec fn type_tag() -> u64 {
        HANDLE_CONNECTION_TAG
    }

    open spec fn encoded(&self) -> Seq<Value> {
        group_info_encoded(self.local) + group_info_encoded(self.remote)
    }

    open spec fn decoded(values: Seq<Value>) -> Option<HandleConnection> {
        if values.len() == 6 {
            match (
                group_info_decoded(values.subrange(0, 3)),
                group_info_decoded(values.subrange(3, 6)),
            ) {
                (Some(local), Some(remote)) => Some(HandleConnection { local, remote }),
                _ => None,
            }
        } else {
            None
        }
    }

    open spec fn well_formed(&self) -> bool {
        group_info_well_formed(self.local) && group_info_well_formed(self.remote)
    }

    fn tag() -> (r: u64) {
        HANDLE_CONNECTION_TAG
    }

    fn encode(self) -> (r: Vec<Value>) {
        let mut values: Vec<Value> = Vec::new();
        values.push(Value::Int(self.local.node_no.into_bits() as u64));
        values.push(Value::Int(self.local.group_no.into_bits() as u64));
        values.push(Value::Text(self.local.group_name));
        values.push(Value::Int(self.remote.node_no.into_bits() as u64));
        values.push(Value::Int(self.remote.group_no.into_bits() as u64));
        values.push(Value::Text(self.remote.group_name));
        assert(values@ =~= self.encoded());
        values
    }

    fn decode(values: Vec<Value>) -> (r: Option<HandleConnection>) {
        if values.len() != 6 {
            return None;
        }
        let ghost v = values@;
        let mut values = values;
        let remote = pop_group_info(&mut values);
        let local = pop_group_info(&mut values);
        assert(v.subrange(0, 6).subrange(0, 3) =~= v.subrange(0, 3));
        assert(v.subrange(0, 6) =~= v);
        match (local, remote) {
            (Some(local), Some(remote)) => Some(HandleConnection { local, remote }),
            _ => None,
        }
    }

    proof fn lemma_decode_encode(m: HandleConnection) {
        lemma_group_info_round_trip(m.local);
        lemma_group_info_round_trip(m.remote);
        let e = m.encoded();
        assert(e.subrange(0, 3) =~= group_info_encoded(m.local));
        assert(e.subrange(3, 6) =~= group_info_encoded(m.remote));
    }
}

// === Actor keys ===

/// The key of an actor of the network group.
#[derive(Debug, Clone, PartialEq, Eq, Hash)]
pub enum ActorKey {
    /// The single actor that receives configuration updates and cluster-wide
    /// messages.
    Discovery,
    /// The actor that owns the connection between two groups.
    Worker { local: GroupInfo, remote: GroupInfo },
}

/// "discovery", or "L:N:R" for a worker: the local group's name, the remote
/// node number and the remote group's name.
pub open spec fn actor_key_text(key: ActorKey) -> Seq<char> {
    match key {
        ActorKey::Discovery => seq!['d', 'i', 's', 'c', 'o', 'v', 'e', 'r', 'y'],
        ActorKey::Worker { local, remote } => local.group_name@ + seq![':'] + decimal(
            remote.node_no@ as nat,
        ) + seq![':'] + remote.group_name@,
    }
}

impl ActorKey {
    pub fn to_string(&self) -> (r: String)
        ensures
            r@ == actor_key_text(*self),
    {
        proof {
            reveal_strlit("discovery");
            reveal_strlit(":");
        }
        match self {
            ActorKey::Discovery => {
                let r = String::from_str("discovery");
                assert(r@ =~= actor_key_text(*self));
                r
            },
            ActorKey::Worker { local, remote } => {
                let mut r = String::new();
                r.append(local.group_name.as_str());
                r.append(":");
                push_decimal(&mut r, remote.node_no.into_bits() as u64);
                r.append(":");
                r.append(remote.group_name.as_str());
                assert(r@ =~= actor_key_text(*self));
                r
            },
        }
    }
}

// === Routing ===

/// Where the network group sends an erased message of view `m`: updates of
/// the configuration to the discovery actor, a connection to the worker of
/// its two groups, anything else by the default rule.
pub open spec fn network_route(m: (u64, Seq<Value>)) -> Outcome<ActorKey> {
    if m.0 == UPDATE_CONFIG_TAG {
        Outcome::Unicast(ActorKey::Discovery)
    } else if let Some(h) = erased_as::<HandleConnection>(m) {
        Outcome::Unicast(ActorKey::Worker { local: h.local, remote: h.remote })
    } else {
        Outcome::Default
    }
}

/// Routes an envelope within the network group.
pub fn route(envelope: &Envelope) -> (r: Outcome<ActorKey>)
    ensures
        r == network_route(envelope.spec_message()@),
{
    let message: &AnyMessage = EnvelopeBorrowed::unpack_regular(envelope);
    if message.is::<UpdateConfig>() {
        // Every connection could receive it too; one receiver suffices now.
        return Outcome::Unicast(ActorKey::Discovery);
    }
    let connection = message.duplicate().downcast::<HandleConnection>();
    match connection {
        Some(h) => Outcome::Unicast(ActorKey::Worker { local: h.local, remote: h.remote }),
        None => Outcome::Default,
    }
}

/// Configuration of the network group.
#[derive(Debug, Clone, PartialEq, Eq)]
pub struct NetworkConfig {}

/// The router of the network group.
#[derive(Debug, Clone, Copy, PartialEq, Eq)]
pub struct NetworkRouter {}

impl Router<NetworkConfig> for NetworkRouter {
    type Key = ActorKey;

    open spec fn spec_route(&self, m: (u64, Seq<Value>)) -> Outcome<ActorKey> {
        network_route(m)
    }

    fn route(&self, envelope: &Envelope) -> (r: Outcome<ActorKey>) {
        route(envelope)
    }
}

/// The blueprint of the network group, whose actors run `body`. Its router
/// sends configuration updates to the discovery actor, a connection to the
/// worker of its two groups and anything else by the default rule. The group
/// is never restarted as a whole; the discovery actor decides for itself.
pub fn new<X>(body: X) -> (r: Blueprint<NetworkRouter, NetworkConfig, X>)
    ensures
        forall|m: (u64, Seq<Value>)| #[trigger] r.router.spec_route(m) == network_route(m),
        r.restart_policy.mode == RestartMode::Never,
        r.termination_policy.stop_spawning,
        r.termination_policy.close_mailbox,
        r.body == body,
{
    ActorGroup::new().config::<NetworkConfig>().restart_policy(RestartPolicy::never()).router(
        NetworkRouter {  },
    ).exec(body)
}

// === Laws ===

/// A configuration update always goes to the discovery actor, a request to
/// handle a connection between `L` and `R` always goes to the worker keyed by
/// `L` and `R`, and a message of any other type `m` by the default rule.
pub proof fn lemma_route_network_messages(
    u: UpdateConfig,
    h: HandleConnection,
    m: (u64, Seq<Value>),
)
    requires
        h.well_formed(),
        m.0 != UpdateConfig::type_tag(),
        m.0 != HandleConnection::type_tag(),
    ensures
        network_route((UpdateConfig::type_tag(), u.encoded())) == Outcome::<ActorKey>::Unicast(
            ActorKey::Discovery,
        ),
        network_route((HandleConnection::type_tag(), h.encoded())) == Outcome::<ActorKey>::Unicast(
            ActorKey::Worker { local: h.local, remote: h.remote },
        ),
        network_route(m) == Outcome::<ActorKey>::Default,
{
    HandleConnection::lemma_decode_encode(h);
}

} // verus!

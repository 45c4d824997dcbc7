//! Read-only snapshot types the library hands its caller: an immutable,
//! point-in-time copy of the server-held game server record, converted
//! field by field from the wire messages in [`crate::proto`].

use crate::proto;
use std::collections::HashMap;
use vstd::prelude::*;

verus! {

/// Point-in-time, read-only game server snapshot.
#[derive(Clone, Debug, PartialEq, Default)]
pub struct GameServer {
    pub object_meta: Option<GameServerObjectMeta>,
    pub spec: Option<GameServerSpec>,
    pub status: Option<GameServerStatus>,
}

/// Object metadata of the snapshot.
#[derive(Clone, Debug, PartialEq, Default)]
pub struct GameServerObjectMeta {
    pub name: String,
    pub namespace: String,
    pub uid: String,
    pub resource_version: String,
    pub generation: i64,
    pub creation_timestamp: i64,
    pub deletion_timestamp: i64,
    pub annotations: HashMap<String, String>,
    pub labels: HashMap<String, String>,
}

/// Spec portion of the snapshot.
#[derive(Clone, Debug, PartialEq, Default)]
pub struct GameServerSpec {
    pub health: Option<GameServerSpecHealth>,
}

/// Health-check configuration of the snapshot.
#[derive(Clone, Debug, PartialEq, Default)]
pub struct GameServerSpecHealth {
    pub disabled: bool,
    pub period_seconds: i32,
    pub failure_threshold: i32,
    pub initial_delay_seconds: i32,
}

/// Status portion of the snapshot.
#[derive(Clone, Debug, PartialEq, Default)]
pub struct GameServerStatus {
    pub state: String,
    pub address: String,
    pub ports: Vec<GameServerStatusPort>,
    pub players: Option<GameServerStatusPlayersStatus>,
}

/// A named port in the snapshot's status.
#[derive(Clone, Debug, PartialEq, Default)]
pub struct GameServerStatusPort {
    pub name: String,
    pub port: i32,
}

/// Player-tracking counts in the snapshot's status.
#[derive(Clone, Debug, PartialEq, Default)]
pub struct GameServerStatusPlayersStatus {
    pub count: i64,
    pub capacity: i64,
    pub ids: Vec<String>,
}

impl GameServerObjectMeta {
    /// The snapshot value a metadata message converts to.
    pub open spec fn of_message(msg: proto::ObjectMeta) -> Self {
        GameServerObjectMeta {
            name: msg.name,
            namespace: msg.namespace,
            uid: msg.uid,
            resource_version: msg.resource_version,
            generation: msg.generation,
            creation_timestamp: msg.creation_timestamp,
            deletion_timestamp: msg.deletion_timestamp,
            annotations: msg.annotations,
            labels: msg.labels,
        }
    }

    pub fn from_message(msg: proto::ObjectMeta) -> (r: Self)
        ensures
            r == Self::of_message(msg),
    {
        GameServerObjectMeta {
            name: msg.name,
            namespace: msg.namespace,
            uid: msg.uid,
            resource_version: msg.resource_version,
            generation: msg.generation,
            creation_timestamp: msg.creation_timestamp,
            deletion_timestamp: msg.deletion_timestamp,
            annotations: msg.annotations,
            labels: msg.labels,
        }
    }
}

impl GameServerSpecHealth {
    /// The snapshot value a health-configuration message converts to.
    pub open spec fn of_message(msg: proto::SpecHealth) -> Self {
        GameServerSpecHealth {
            disabled: msg.disabled,
            period_seconds: msg.period_seconds,
            failure_threshold: msg.failure_threshold,
            initial_delay_seconds: msg.initial_delay_seconds,
        }
    }

    pub fn from_message(msg: proto::SpecHealth) -> (r: Self)
        ensures
            r == Self::of_message(msg),
    {
        GameServerSpecHealth {
            disabled: msg.disabled,
            period_seconds: msg.period_seconds,
            failure_threshold: msg.failure_threshold,
            initial_delay_seconds: msg.initial_delay_seconds,
        }
    }
}

impl GameServerSpec {
    /// The snapshot value a spec message converts to.
    pub open spec fn of_message(msg: proto::Spec) -> Self {
        GameServerSpec {
            health: match msg.health {
                Some(h) => Some(GameServerSpecHealth::of_message(h)),
                None => None,
            },
        }
    }

    pub fn from_message(msg: proto::Spec) -> (r: Self)
        ensures
            r == Self::of_message(msg),
    {
        GameServerSpec {
            health: match msg.health {
                Some(h) => Some(GameServerSpecHealth::from_message(h)),
                None => None,
            },
        }
    }
}

impl GameServerStatusPort {
    /// The snapshot value a port message converts to.
    pub open spec fn of_message(msg: proto::StatusPort) -> Self {
        GameServerStatusPort { name: msg.name, port: msg.port }
    }

    pub fn from_message(msg: proto::StatusPort) -> (r: Self)
        ensures
            r == Self::of_message(msg),
    {
        GameServerStatusPort { name: msg.name, port: msg.port }
    }
}

impl GameServerStatusPlayersStatus {
    /// The snapshot value a player-status message converts to.
    pub open spec fn of_message(msg: proto::PlayerStatus) -> Self {
        GameServerStatusPlayersStatus { count: msg.count, capacity: msg.capacity, ids: msg.ids }
    }

    pub fn from_message(msg: proto::PlayerStatus) -> (r: Self)
        ensures
            r == Self::of_message(msg),
    {
        GameServerStatusPlayersStatus { count: msg.count, capacity: msg.capacity, ids: msg.ids }
    }
}

impl GameServerStatus {
    /// The snapshot status `self` is exactly the conversion of the status
    /// message `msg`: every field carried over, the ports in order.
    pub open spec fn matches_message(self, msg: proto::Status) -> bool {
        &&& self.state == msg.state
        &&& self.address == msg.address
        &&& self.ports@ == msg.ports@.map_values(
            |p: proto::StatusPort| GameServerStatusPort::of_message(p),
        )
        &&& match (self.players, msg.players) {
            (Some(r), Some(m)) => r == GameServerStatusPlayersStatus::of_message(m),
            (None, None) => true,
            _ => false,
        }
    }

    pub fn from_message(msg: proto::Status) -> (r: Self)
        ensures
            r.matches_message(msg),
    {
        let mut ports: Vec<GameServerStatusPort> = Vec::new();
        let n = msg.ports.len();
        let mut i: usize = 0;
        while i < n
            invariant
                n == msg.ports.len(),
                i <= n,
                ports@ =~= msg.ports@.subrange(0, i as int).map_values(
                    |p: proto::StatusPort| GameServerStatusPort::of_message(p),
                ),
            decreases n - i,
        {
            let p = &msg.ports[i];
            ports.push(GameServerStatusPort { name: p.name.clone(), port: p.port });
            proof {
                assert(msg.ports@.subrange(0, i + 1 as int) =~= msg.ports@.subrange(
                    0,
                    i as int,
                ).push(msg.ports@[i as int]));
            }
            i = i + 1;
        }
        proof {
            assert(msg.ports@.subrange(0, n as int) =~= msg.ports@);
        }
        GameServerStatus {
            state: msg.state,
            address: msg.address,
            ports,
            players: match msg.players {
                Some(m) => Some(GameServerStatusPlayersStatus::from_message(m)),
                None => None,
            },
        }
    }
}

impl GameServer {
    /// The snapshot `self` is exactly the conversion of the wire record
    /// `msg`: each present section converted, each absent one absent.
    pub open spec fn matches_message(self, msg: proto::GameServer) -> bool {
        &&& match (self.object_meta, msg.object_meta) {
            (Some(r), Some(m)) => r == GameServerObjectMeta::of_message(m),
            (None, None) => true,
            _ => false,
        }
        &&& match (self.spec, msg.spec) {
            (Some(r), Some(m)) => r == GameServerSpec::of_message(m),
            (None, None) => true,
            _ => false,
        }
        &&& match (self.status, msg.status) {
            (Some(r), Some(m)) => r.matches_message(m),
            (None, None) => true,
            _ => false,
        }
    }

    pub fn from_message(msg: proto::GameServer) -> (r: Self)
        ensures
            r.matches_message(msg),
    {
        GameServer {
            object_meta: match msg.object_meta {
                Some(m) => Some(GameServerObjectMeta::from_message(m)),
                None => None,
            },
            spec: match msg.spec {
                Some(m) => Some(GameServerSpec::from_message(m)),
                None => None,
            },
            status: match msg.status {
                Some(m) => Some(GameServerStatus::from_message(m)),
                None => None,
            },
        }
    }
}

} // verus!

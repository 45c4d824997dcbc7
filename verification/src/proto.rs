//! Wire shapes of the sidecar protocol: the request and response messages
//! the fixed RPC service definition exchanges, held as plain values. The
//! byte-level encoding is owned by the transport layer outside the library.

use std::collections::HashMap;
use vstd::prelude::*;

verus! {

/// Empty request/response payload.
#[derive(Clone, Copy, Debug, PartialEq, Default)]
pub struct Empty {}

/// A label or annotation write.
#[derive(Clone, Debug, PartialEq, Default)]
pub struct KeyValue {
    pub key: String,
    pub value: String,
}

/// Reservation window, whole seconds only.
#[derive(Clone, Debug, PartialEq, Default)]
pub struct Duration {
    pub seconds: i64,
}

/// Point-in-time game server record as the sidecar transmits it.
#[derive(Clone, Debug, PartialEq, Default)]
pub struct GameServer {
    pub object_meta: Option<ObjectMeta>,
    pub spec: Option<Spec>,
    pub status: Option<Status>,
}

/// Object metadata of the backing record.
#[derive(Clone, Debug, PartialEq, Default)]
pub struct ObjectMeta {
    pub name: String,
    pub namespace: String,
    pub uid: String,
    pub resource_version: String,
    pub generation: i64,
    pub creation_timestamp: i64,
    pub deletion_timestamp: i64,
    pub annotations: HashMap<String, String>,
    pub labels: HashMap<String, String>,
}

/// Spec portion of the record.
#[derive(Clone, Debug, PartialEq, Default)]
pub struct Spec {
    pub health: Option<SpecHealth>,
}

/// Health-check configuration of the record.
#[derive(Clone, Debug, PartialEq, Default)]
pub struct SpecHealth {
    pub disabled: bool,
    pub period_seconds: i32,
    pub failure_threshold: i32,
    pub initial_delay_seconds: i32,
}

/// Status portion of the record.
#[derive(Clone, Debug, PartialEq, Default)]
pub struct Status {
    pub state: String,
    pub address: String,
    pub ports: Vec<StatusPort>,
    pub players: Option<PlayerStatus>,
}

/// A named port in the status.
#[derive(Clone, Debug, PartialEq, Default)]
pub struct StatusPort {
    pub name: String,
    pub port: i32,
}

/// Player-tracking counts in the status.
#[derive(Clone, Debug, PartialEq, Default)]
pub struct PlayerStatus {
    pub count: i64,
    pub capacity: i64,
    pub ids: Vec<String>,
}

/// Player count or capacity value.
#[derive(Clone, Debug, PartialEq, Default)]
pub struct Count {
    pub count: i64,
}

/// A player identifier.
#[derive(Clone, Debug, PartialEq, Default)]
pub struct PlayerId {
    pub player_id: String,
}

/// Boolean reply of the player-tracking calls.
#[derive(Clone, Debug, PartialEq, Default)]
pub struct Bool {
    pub value: bool,
}

/// The list of currently connected player ids.
#[derive(Clone, Debug, PartialEq, Default)]
pub struct PlayerIdList {
    pub list: Vec<String>,
}

/// Read request for a named counter.
#[derive(Clone, Debug, PartialEq, Default)]
pub struct GetCounterRequest {
    pub name: String,
}

/// A named counter as the sidecar reports it.
#[derive(Clone, Debug, PartialEq, Default)]
pub struct Counter {
    pub name: String,
    pub count: i64,
    pub capacity: i64,
}

/// The update applied to a counter: an absolute count, a capacity, or a
/// signed delta; absent fields are left unchanged by the server.
#[derive(Clone, Debug, PartialEq, Default)]
pub struct CounterUpdateRequest {
    pub name: String,
    pub count: Option<i64>,
    pub capacity: Option<i64>,
    pub count_diff: i64,
}

/// Envelope of a counter update.
#[derive(Clone, Debug, PartialEq, Default)]
pub struct UpdateCounterRequest {
    pub counter_update_request: Option<CounterUpdateRequest>,
}

/// Read request for a named list.
#[derive(Clone, Debug, PartialEq, Default)]
pub struct GetListRequest {
    pub name: String,
}

/// A named list as the sidecar reports it.
#[derive(Clone, Debug, PartialEq, Default)]
pub struct List {
    pub name: String,
    pub capacity: i64,
    pub values: Vec<String>,
}

/// Which fields of a list update the server should apply.
#[derive(Clone, Debug, PartialEq, Default)]
pub struct FieldMask {
    pub paths: Vec<String>,
}

/// A masked update of a list.
#[derive(Clone, Debug, PartialEq, Default)]
pub struct UpdateListRequest {
    pub list: Option<List>,
    pub update_mask: Option<FieldMask>,
}

/// Appends one value to a named list.
#[derive(Clone, Debug, PartialEq, Default)]
pub struct AddListValueRequest {
    pub name: String,
    pub value: String,
}

/// Removes one value from a named list.
#[derive(Clone, Debug, PartialEq, Default)]
pub struct RemoveListValueRequest {
    pub name: String,
    pub value: String,
}

/// The empty payload carried by the parameterless lifecycle calls.
#[inline]
pub fn empty() -> (e: Empty)
    ensures
        e == (Empty {  }),
{
    Empty {  }
}

} // verus!

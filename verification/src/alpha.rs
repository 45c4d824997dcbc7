//! Alpha is an instance of the player-tracking SDK surface: stateless
//! one-shot calls over the shared channel. Each method prepares the exact
//! request the wire protocol defines; the transport performs it and the
//! response interpreters below turn what came back into plain values.

use crate::endpoint::Channel;
use crate::errors::{Error, RpcStatus};
use crate::proto;
use vstd::prelude::*;

verus! {

/// One call on the player-tracking service, ready for the transport.
#[derive(Clone, Debug, PartialEq)]
pub enum AlphaRequest {
    GetPlayerCapacity(proto::Empty),
    SetPlayerCapacity(proto::Count),
    PlayerConnect(proto::PlayerId),
    PlayerDisconnect(proto::PlayerId),
    GetPlayerCount(proto::Empty),
    IsPlayerConnected(proto::PlayerId),
    GetConnectedPlayers(proto::Empty),
}

/// Alpha is an instance of the player-tracking SDK.
#[derive(Clone, Debug)]
pub struct Alpha {
    /// The shared transport handle.
    pub channel: Channel,
}

impl Alpha {
    /// A new instance over the given channel.
    pub(crate) fn new(ch: Channel) -> (r: Self)
        ensures
            r.channel == ch,
    {
        Alpha { channel: ch }
    }

    /// The read of the player capacity last set through the SDK.
    pub fn get_player_capacity(&self) -> (r: AlphaRequest)
        ensures
            r == AlphaRequest::GetPlayerCapacity(proto::Empty {  }),
    {
        AlphaRequest::GetPlayerCapacity(proto::Empty {  })
    }

    /// The write that changes the player capacity to a new value.
    pub fn set_player_capacity(&self, count: i64) -> (r: AlphaRequest)
        ensures
            r == AlphaRequest::SetPlayerCapacity((proto::Count { count })),
    {
        AlphaRequest::SetPlayerCapacity(proto::Count { count })
    }

    /// The call that connects one player id: the server adds the id and
    /// raises its stored count, and answers whether the id was new.
    pub fn player_connect(&self, id: &str) -> (r: AlphaRequest)
        ensures
            r matches AlphaRequest::PlayerConnect(p) && p.player_id@ == id@,
    {
        AlphaRequest::PlayerConnect(proto::PlayerId { player_id: id.to_owned() })
    }

    /// The call that disconnects one player id: the server removes the id
    /// and lowers its stored count, and answers whether the id was there.
    pub fn player_disconnect(&self, id: &str) -> (r: AlphaRequest)
        ensures
            r matches AlphaRequest::PlayerDisconnect(p) && p.player_id@ == id@,
    {
        AlphaRequest::PlayerDisconnect(proto::PlayerId { player_id: id.to_owned() })
    }

    /// The read of the current player count.
    pub fn get_player_count(&self) -> (r: AlphaRequest)
        ensures
            r == AlphaRequest::GetPlayerCount(proto::Empty {  }),
    {
        AlphaRequest::GetPlayerCount(proto::Empty {  })
    }

    /// The query whether one player id is currently connected.
    pub fn is_player_connected(&self, id: &str) -> (r: AlphaRequest)
        ensures
            r matches AlphaRequest::IsPlayerConnected(p) && p.player_id@ == id@,
    {
        AlphaRequest::IsPlayerConnected(proto::PlayerId { player_id: id.to_owned() })
    }

    /// The read of the list of currently connected player ids.
    pub fn get_connected_players(&self) -> (r: AlphaRequest)
        ensures
            r == AlphaRequest::GetConnectedPlayers(proto::Empty {  }),
    {
        AlphaRequest::GetConnectedPlayers(proto::Empty {  })
    }

    /// A count reply, as the capacity and count reads return it.
    pub fn count_response(outcome: Result<proto::Count, RpcStatus>) -> (r: Result<i64, Error>)
        ensures
            match outcome {
                Ok(c) => r == Ok::<i64, Error>(c.count),
                Err(st) => r == Err::<i64, Error>(Error::Rpc(st)),
            },
    {
        match outcome {
            Ok(c) => Ok(c.count),
            Err(st) => Err(Error::Rpc(st)),
        }
    }

    /// A boolean reply, as connect, disconnect and the connected query
    /// return it.
    pub fn bool_response(outcome: Result<proto::Bool, RpcStatus>) -> (r: Result<bool, Error>)
        ensures
            match outcome {
                Ok(b) => r == Ok::<bool, Error>(b.value),
                Err(st) => r == Err::<bool, Error>(Error::Rpc(st)),
            },
    {
        match outcome {
            Ok(b) => Ok(b.value),
            Err(st) => Err(Error::Rpc(st)),
        }
    }

    /// An id-list reply, as the connected-players read returns it.
    pub fn players_response(outcome: Result<proto::PlayerIdList, RpcStatus>) -> (r: Result<
        Vec<String>,
        Error,
    >)
        ensures
            match outcome {
                Ok(l) => (r matches Ok(v) && v == l.list),
                Err(st) => r == Err::<Vec<String>, Error>(Error::Rpc(st)),
            },
    {
        match outcome {
            Ok(l) => Ok(l.list),
            Err(st) => Err(Error::Rpc(st)),
        }
    }
}

} // verus!

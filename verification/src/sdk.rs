//! Sdk is an instance of the game-server SDK: it resolves the endpoint,
//! validates the connection URI, and hands out the bootstrap machine whose
//! probing the transport drives; once connected, its methods prepare the
//! exact lifecycle and metadata calls of the wire protocol, and the
//! interpreters turn the replies into plain values.

use crate::alpha::Alpha;
use crate::beta::Beta;
use crate::bootstrap::{Bootstrap, BootstrapPhase, BOOTSTRAP_DEADLINE_MS, BOOTSTRAP_PROBE_INTERVAL_MS};
use crate::endpoint::{
    dec_digits, dec_value, host_address, is_valid_port_str, port_digits, resolve_host,
    resolve_port, uri_is_valid, uri_well_formed, Channel, DEFAULT_HOST, DEFAULT_KEEP_ALIVE_MS,
    DEFAULT_PORT,
};
use crate::errors::{Error, RpcStatus};
use crate::health::{HealthChannel, HealthModel};
use crate::proto;
use crate::types::GameServer;
use crate::watch::WatchStream;
use vstd::prelude::*;

verus! {

/// One call on the core lifecycle service, ready for the transport.
#[derive(Clone, Debug, PartialEq)]
pub enum SdkRequest {
    Ready(proto::Empty),
    Allocate(proto::Empty),
    Shutdown(proto::Empty),
    GetGameServer(proto::Empty),
    WatchGameServer(proto::Empty),
    Reserve(proto::Duration),
    SetLabel(proto::KeyValue),
    SetAnnotation(proto::KeyValue),
}

/// The seconds value a reservation request carries: the whole seconds of
/// the asked duration, floored to one — never zero or negative — and a
/// duration beyond the wire's signed range falls back to the floor.
pub open spec fn spec_reserve_seconds(seconds: u64) -> i64 {
    if 1 <= seconds <= i64::MAX {
        seconds as i64
    } else {
        1
    }
}

/// The keep-alive timeout the transport is configured with.
pub open spec fn spec_keep_alive(keep_alive_ms: Option<u64>) -> u64 {
    match keep_alive_ms {
        Some(x) => x,
        None => DEFAULT_KEEP_ALIVE_MS,
    }
}

/// The view of an optional string argument.
pub open spec fn opt_str_view(o: Option<&str>) -> Option<Seq<char>> {
    match o {
        Some(s) => Some(s@),
        None => None,
    }
}

/// The port the library resolves: the explicit one wins, else a parsable
/// environment-supplied value, else the fixed default.
pub open spec fn spec_port(port: Option<u16>, env_port: Option<Seq<char>>) -> int {
    match port {
        Some(x) => x as int,
        None => match env_port {
            Some(s) => if is_valid_port_str(s) {
                dec_value(port_digits(s))
            } else {
                DEFAULT_PORT as int
            },
            None => DEFAULT_PORT as int,
        },
    }
}

/// The host the library resolves: the explicit one wins, else the
/// environment-supplied value, else loopback.
pub open spec fn spec_host(host: Option<Seq<char>>, env_host: Option<Seq<char>>) -> Seq<char> {
    match host {
        Some(s) => s,
        None => match env_host {
            Some(s) => s,
            None => DEFAULT_HOST@,
        },
    }
}

/// The fresh bootstrap machine a new connection starts with.
pub open spec fn spec_fresh_bootstrap() -> Bootstrap {
    Bootstrap {
        interval_ms: BOOTSTRAP_PROBE_INTERVAL_MS,
        deadline_ms: BOOTSTRAP_DEADLINE_MS,
        elapsed_ms: 0,
        phase: BootstrapPhase::Probing,
    }
}

/// Sdk is an instance of the game-server SDK: one shared channel, and the
/// auxiliary surfaces over the same channel.
#[derive(Clone, Debug)]
pub struct Sdk {
    /// The shared transport handle.
    pub channel: Channel,
    /// The player-tracking surface, over the same channel.
    pub alpha: Alpha,
    /// The counter-and-list surface, over the same channel.
    pub beta: Beta,
}

impl Sdk {
    /// All surfaces share the one channel.
    pub open spec fn wf(self) -> bool {
        &&& self.alpha.channel.addr@ == self.channel.addr@
        &&& self.alpha.channel.keep_alive_ms == self.channel.keep_alive_ms
        &&& self.beta.channel.addr@ == self.channel.addr@
        &&& self.beta.channel.keep_alive_ms == self.channel.keep_alive_ms
    }

    /// Prepares a new SDK instance against loopback, on the port given, or
    /// else the environment-supplied value, or else the fixed default. A
    /// malformed endpoint fails immediately with [`Error::InvalidUri`],
    /// before any probing; otherwise the caller receives the instance and
    /// the bootstrap machine whose probing the transport must drive to
    /// completion before use.
    pub fn new(port: Option<u16>, env_port: Option<&str>, keep_alive_ms: Option<u64>) -> (r: Result<
        (Sdk, Bootstrap),
        Error,
    >)
        ensures
            ({
                let addr = DEFAULT_HOST@ + ":"@ + dec_digits(spec_port(port, opt_str_view(env_port)));
                &&& uri_well_formed(addr) ==> (r matches Ok(p) && p.0.wf() && p.0.channel.addr@
                    == addr && p.0.channel.keep_alive_ms == spec_keep_alive(keep_alive_ms) && p.1
                    == spec_fresh_bootstrap())
                &&& !uri_well_formed(addr) ==> r == Err::<(Sdk, Bootstrap), Error>(Error::InvalidUri)
            }),
    {
        let p = resolve_port(port, env_port);
        let addr = host_address(DEFAULT_HOST, p);
        Self::new_internal(addr, keep_alive_ms)
    }

    /// Prepares a new SDK instance against an explicit host, or else the
    /// environment-supplied one, or else loopback; the port is resolved as
    /// in [`Sdk::new`].
    pub fn new_with_host(
        host: Option<&str>,
        env_host: Option<&str>,
        port: Option<u16>,
        env_port: Option<&str>,
        keep_alive_ms: Option<u64>,
    ) -> (r: Result<(Sdk, Bootstrap), Error>)
        ensures
            ({
                let addr = spec_host(opt_str_view(host), opt_str_view(env_host)) + ":"@
                    + dec_digits(spec_port(port, opt_str_view(env_port)));
                &&& uri_well_formed(addr) ==> (r matches Ok(p) && p.0.wf() && p.0.channel.addr@
                    == addr && p.0.channel.keep_alive_ms == spec_keep_alive(keep_alive_ms) && p.1
                    == spec_fresh_bootstrap())
                &&& !uri_well_formed(addr) ==> r == Err::<(Sdk, Bootstrap), Error>(Error::InvalidUri)
            }),
    {
        let h = resolve_host(host, env_host);
        let p = resolve_port(port, env_port);
        let addr = host_address(h, p);
        Self::new_internal(addr, keep_alive_ms)
    }

    /// Validates the address and builds the instance and its fresh
    /// bootstrap machine.
    fn new_internal(addr: String, keep_alive_ms: Option<u64>) -> (r: Result<
        (Sdk, Bootstrap),
        Error,
    >)
        ensures
            uri_well_formed(addr@) ==> (r matches Ok(p) && p.0.wf() && p.0.channel.addr@ == addr@
                && p.0.channel.keep_alive_ms == spec_keep_alive(keep_alive_ms) && p.1
                == spec_fresh_bootstrap()),
            !uri_well_formed(addr@) ==> r == Err::<(Sdk, Bootstrap), Error>(Error::InvalidUri),
    {
        if !uri_is_valid(addr.as_str()) {
            return Err(Error::InvalidUri);
        }
        let keep_alive = match keep_alive_ms {
            Some(x) => x,
            None => DEFAULT_KEEP_ALIVE_MS,
        };
        let channel = Channel { addr, keep_alive_ms: keep_alive };
        let alpha = Alpha::new(channel.duplicate());
        let beta = Beta::new(channel.duplicate());
        Ok((Sdk { channel, alpha, beta }, Bootstrap::with_defaults()))
    }

    /// The player-tracking SDK surface.
    pub fn alpha(&self) -> (r: &Alpha)
        ensures
            r == self.alpha,
    {
        &self.alpha
    }

    /// The counter-and-list SDK surface.
    pub fn beta(&self) -> (r: &Beta)
        ensures
            r == self.beta,
    {
        &self.beta
    }

    /// The call that marks the game server ready to receive connections.
    pub fn ready(&self) -> (r: SdkRequest)
        ensures
            r == SdkRequest::Ready(proto::Empty {  }),
    {
        SdkRequest::Ready(proto::Empty {  })
    }

    /// The call that allocates the game server.
    pub fn allocate(&self) -> (r: SdkRequest)
        ensures
            r == SdkRequest::Allocate(proto::Empty {  }),
    {
        SdkRequest::Allocate(proto::Empty {  })
    }

    /// The call that marks the game server ready to shut down.
    pub fn shutdown(&self) -> (r: SdkRequest)
        ensures
            r == SdkRequest::Shutdown(proto::Empty {  }),
    {
        SdkRequest::Shutdown(proto::Empty {  })
    }

    /// The one-shot read of the backing game server record.
    pub fn get_gameserver(&self) -> (r: SdkRequest)
        ensures
            r == SdkRequest::GetGameServer(proto::Empty {  }),
    {
        SdkRequest::GetGameServer(proto::Empty {  })
    }

    /// The call that opens the server-streaming watch on the record.
    pub fn watch_gameserver(&self) -> (r: SdkRequest)
        ensures
            r == SdkRequest::WatchGameServer(proto::Empty {  }),
    {
        SdkRequest::WatchGameServer(proto::Empty {  })
    }

    /// The call that marks the game server reserved for the given
    /// duration. The server knows whole seconds only, so the transmitted
    /// value is the duration's seconds floored to one: a zero or
    /// subsecond request yields exactly one second on the wire.
    pub fn reserve(&self, seconds: u64) -> (r: SdkRequest)
        ensures
            r == SdkRequest::Reserve((proto::Duration { seconds: spec_reserve_seconds(seconds) })),
    {
        let s: i64 = if seconds >= 1 && seconds <= i64::MAX as u64 {
            seconds as i64
        } else {
            1
        };
        SdkRequest::Reserve(proto::Duration { seconds: s })
    }

    /// The write of one label on the backing record; the server is
    /// authoritative on naming constraints.
    pub fn set_label(&self, key: &str, value: &str) -> (r: SdkRequest)
        ensures
            r matches SdkRequest::SetLabel(kv) && kv.key@ == key@ && kv.value@ == value@,
    {
        SdkRequest::SetLabel(proto::KeyValue { key: key.to_owned(), value: value.to_owned() })
    }

    /// The write of one annotation on the backing record.
    pub fn set_annotation(&self, key: &str, value: &str) -> (r: SdkRequest)
        ensures
            r matches SdkRequest::SetAnnotation(kv) && kv.key@ == key@ && kv.value@ == value@,
    {
        SdkRequest::SetAnnotation(proto::KeyValue { key: key.to_owned(), value: value.to_owned() })
    }

    /// A fresh keepalive handle: the one send-capable end of the health
    /// stream. Every caller's ping funnels through it; the stream itself
    /// is opened by the first send.
    pub fn health_check(&self) -> (h: HealthChannel)
        ensures
            h.wf(),
            h.m() == HealthModel::init(),
    {
        HealthChannel::new()
    }

    /// The outcome of a call that answers with an empty payload: success
    /// is unit, a server status becomes [`Error::Rpc`].
    pub fn complete_call(outcome: Result<proto::Empty, RpcStatus>) -> (r: Result<(), Error>)
        ensures
            match outcome {
                Ok(_) => r == Ok::<(), Error>(()),
                Err(st) => r == Err::<(), Error>(Error::Rpc(st)),
            },
    {
        match outcome {
            Ok(_) => Ok(()),
            Err(st) => Err(Error::Rpc(st)),
        }
    }

    /// The outcome of the record read: the wire message converted, field
    /// for field, into the snapshot handed to the caller.
    pub fn complete_get_gameserver(outcome: Result<proto::GameServer, RpcStatus>) -> (r: Result<
        GameServer,
        Error,
    >)
        ensures
            match outcome {
                Ok(m) => (r matches Ok(gs) && gs.matches_message(m)),
                Err(st) => r == Err::<GameServer, Error>(Error::Rpc(st)),
            },
    {
        match outcome {
            Ok(m) => Ok(GameServer::from_message(m)),
            Err(st) => Err(Error::Rpc(st)),
        }
    }

    /// The outcome of opening the watch: a fresh in-order stream on
    /// success, the server's status otherwise.
    pub fn open_watch(outcome: Result<(), RpcStatus>) -> (r: Result<WatchStream, Error>)
        ensures
            match outcome {
                Ok(_) => (r matches Ok(w) && w.wf() && w.emitted@ == Seq::<GameServer>::empty()
                    && w.taken@ == Seq::<GameServer>::empty() && !w.closed),
                Err(st) => r == Err::<WatchStream, Error>(Error::Rpc(st)),
            },
    {
        match outcome {
            Ok(_) => Ok(WatchStream::new()),
            Err(st) => Err(Error::Rpc(st)),
        }
    }
}

} // verus!

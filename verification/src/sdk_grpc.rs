//! The low-level client surface of the core service: blocking and
//! asynchronous unary calls and the client-streaming health call, each
//! prepared as an exact description — method, payload, per-call options,
//! whether the caller waits for the reply — for the transport to perform
//! over the shared channel.

use crate::endpoint::Channel;
use crate::health::{HealthChannel, HealthModel, HealthState};
use crate::proto::Empty;
use vstd::prelude::*;

verus! {

/// The methods of the core service.
#[derive(Clone, Copy, Debug, PartialEq, Eq, Structural)]
pub enum SdkMethod {
    /// Unary: marks the game server ready.
    Ready,
    /// Unary: marks the game server ready to shut down.
    Shutdown,
    /// Client-streaming: carries the periodic health signals.
    Health,
}

impl SdkMethod {
    /// The method's full path on the wire.
    pub fn path(&self) -> (s: &'static str)
        ensures
            s@ == match self {
                SdkMethod::Ready => "/stable.agones.dev.sdk.SDK/Ready"@,
                SdkMethod::Shutdown => "/stable.agones.dev.sdk.SDK/Shutdown"@,
                SdkMethod::Health => "/stable.agones.dev.sdk.SDK/Health"@,
            },
    {
        match self {
            SdkMethod::Ready => "/stable.agones.dev.sdk.SDK/Ready",
            SdkMethod::Shutdown => "/stable.agones.dev.sdk.SDK/Shutdown",
            SdkMethod::Health => "/stable.agones.dev.sdk.SDK/Health",
        }
    }
}

/// Per-call options; the default asks for none.
#[derive(Clone, Copy, Debug, PartialEq)]
pub struct CallOption {
    /// A deadline for this one call, in milliseconds.
    pub timeout_ms: Option<u64>,
}

impl Default for CallOption {
    /// No per-call deadline.
    fn default() -> (r: Self)
        ensures
            r.timeout_ms is None,
    {
        CallOption { timeout_ms: None }
    }
}

/// One unary call, ready for the transport: which method, the payload,
/// the options, and whether the caller blocks on the reply.
#[derive(Clone, Copy, Debug, PartialEq)]
pub struct UnaryCall {
    pub method: SdkMethod,
    pub req: Empty,
    pub opt: CallOption,
    /// Whether the caller waits for the reply in place; otherwise the
    /// transport hands back a receiver to await.
    pub wait_for_reply: bool,
}

/// The opening of one client-streaming call.
#[derive(Clone, Copy, Debug, PartialEq)]
pub struct StreamCall {
    pub method: SdkMethod,
    pub opt: CallOption,
}

/// The client of the core service, over the shared channel.
#[derive(Clone, Debug)]
pub struct SdkClient {
    /// The shared transport handle.
    pub channel: Channel,
}

impl SdkClient {
    /// A new client over the given channel.
    pub fn new(channel: Channel) -> (r: Self)
        ensures
            r.channel == channel,
    {
        SdkClient { channel }
    }

    /// The blocking ready call, with explicit options.
    pub fn ready_opt(&self, req: &Empty, opt: CallOption) -> (c: UnaryCall)
        ensures
            c == (UnaryCall { method: SdkMethod::Ready, req: *req, opt, wait_for_reply: true }),
    {
        UnaryCall { method: SdkMethod::Ready, req: *req, opt, wait_for_reply: true }
    }

    /// The blocking ready call, with default options.
    pub fn ready(&self, req: &Empty) -> (c: UnaryCall)
        ensures
            c == (UnaryCall {
                method: SdkMethod::Ready,
                req: *req,
                opt: (CallOption { timeout_ms: None }),
                wait_for_reply: true,
            }),
    {
        self.ready_opt(req, CallOption::default())
    }

    /// The asynchronous ready call, with explicit options.
    pub fn ready_async_opt(&self, req: &Empty, opt: CallOption) -> (c: UnaryCall)
        ensures
            c == (UnaryCall { method: SdkMethod::Ready, req: *req, opt, wait_for_reply: false }),
    {
        UnaryCall { method: SdkMethod::Ready, req: *req, opt, wait_for_reply: false }
    }

    /// The asynchronous ready call, with default options.
    pub fn ready_async(&self, req: &Empty) -> (c: UnaryCall)
        ensures
            c == (UnaryCall {
                method: SdkMethod::Ready,
                req: *req,
                opt: (CallOption { timeout_ms: None }),
                wait_for_reply: false,
            }),
    {
        self.ready_async_opt(req, CallOption::default())
    }

    /// The blocking shutdown call, with explicit options.
    pub fn shutdown_opt(&self, req: &Empty, opt: CallOption) -> (c: UnaryCall)
        ensures
            c == (UnaryCall { method: SdkMethod::Shutdown, req: *req, opt, wait_for_reply: true }),
    {
        UnaryCall { method: SdkMethod::Shutdown, req: *req, opt, wait_for_reply: true }
    }

    /// The blocking shutdown call, with default options.
    pub fn shutdown(&self, req: &Empty) -> (c: UnaryCall)
        ensures
            c == (UnaryCall {
                method: SdkMethod::Shutdown,
                req: *req,
                opt: (CallOption { timeout_ms: None }),
                wait_for_reply: true,
            }),
    {
        self.shutdown_opt(req, CallOption::default())
    }

    /// The asynchronous shutdown call, with explicit options.
    pub fn shutdown_async_opt(&self, req: &Empty, opt: CallOption) -> (c: UnaryCall)
        ensures
            c == (UnaryCall { method: SdkMethod::Shutdown, req: *req, opt, wait_for_reply: false }),
    {
        UnaryCall { method: SdkMethod::Shutdown, req: *req, opt, wait_for_reply: false }
    }

    /// The asynchronous shutdown call, with default options.
    pub fn shutdown_async(&self, req: &Empty) -> (c: UnaryCall)
        ensures
            c == (UnaryCall {
                method: SdkMethod::Shutdown,
                req: *req,
                opt: (CallOption { timeout_ms: None }),
                wait_for_reply: false,
            }),
    {
        self.shutdown_async_opt(req, CallOption::default())
    }

    /// Opens the health stream, with explicit options: the description of
    /// the call and the one send-capable handle, already streaming and
    /// with nothing sent yet.
    pub fn health_opt(&self, opt: CallOption) -> (r: (StreamCall, HealthChannel))
        ensures
            r.0 == (StreamCall { method: SdkMethod::Health, opt }),
            r.1.wf(),
            r.1.state is Streaming,
            r.1.m() == (HealthModel { state: HealthState::Streaming, sent: 0, streams: 1 }),
    {
        let mut h = HealthChannel::new();
        h.open();
        (StreamCall { method: SdkMethod::Health, opt }, h)
    }

    /// Opens the health stream with default options.
    pub fn health(&self) -> (r: (StreamCall, HealthChannel))
        ensures
            r.0 == (StreamCall { method: SdkMethod::Health, opt: (CallOption { timeout_ms: None }) }),
            r.1.wf(),
            r.1.state is Streaming,
            r.1.m() == (HealthModel { state: HealthState::Streaming, sent: 0, streams: 1 }),
    {
        self.health_opt(CallOption::default())
    }
}

} // verus!

//! How the broker is reached: transport, protocol version and subscription,
//! derived from the configured host and options.

use crate::text::{begins_with, is_prefix_of};
use vstd::prelude::*;
use vstd::string::StringSliceAdditionalSpecFns;

verus! {

/// The protocol version that is negotiated unless version 5 is asked for.
pub const DEFAULT_PROTOCOL_VERSION: u8 = 3;

/// The alternate protocol version.
pub const ALTERNATE_PROTOCOL_VERSION: u8 = 5;

/// Seconds between keep-alive exchanges with the broker.
pub const KEEP_ALIVE_SECONDS: u64 = 30;

/// Seconds after which the broker may drop the session.
pub const SESSION_EXPIRY_SECONDS: i32 = 3600;

/// The number of messages that the inbound stream buffers.
pub const STREAM_CAPACITY: usize = 300;

/// The quality of service asked for on subscription.
pub const SUBSCRIPTION_QOS: i32 = 1;

/// The port that the snapshot server listens on.
pub const SERVER_PORT: u16 = 12345;

/// How the connection to the broker is set up.
#[derive(Clone, Copy, Debug, PartialEq, Eq)]
pub struct ConnectionPlan {
    /// Whether the broker is reached over a web socket.
    pub websocket: bool,
    /// Whether the transport is secured.
    pub secured: bool,
    /// The protocol version that is negotiated.
    pub protocol_version: u8,
}

/// The bytes of `ws`, the scheme of a web socket.
pub open spec fn websocket_scheme() -> Seq<u8> {
    seq![0x77u8, 0x73u8]
}

/// The bytes of `wss`, the scheme of a secured web socket.
pub open spec fn secured_scheme() -> Seq<u8> {
    seq![0x77u8, 0x73u8, 0x73u8]
}

/// The protocol version for the version option: the alternate version where
/// it is asked for, the default one for any other option and for none.
pub open spec fn negotiated_version(option: Option<u8>) -> u8 {
    if option == Some(ALTERNATE_PROTOCOL_VERSION) {
        ALTERNATE_PROTOCOL_VERSION
    } else {
        DEFAULT_PROTOCOL_VERSION
    }
}

/// The plan for a host and a version option. The host's scheme selects the
/// transport: a host that begins with `ws` is reached over a web socket, and
/// one that begins with `wss` over a secured one.
pub open spec fn planned_connection(host: Seq<u8>, option: Option<u8>) -> ConnectionPlan {
    ConnectionPlan {
        websocket: is_prefix_of(websocket_scheme(), host),
        secured: is_prefix_of(secured_scheme(), host),
        protocol_version: negotiated_version(option),
    }
}

/// Derives the connection plan from the host and the version option.
pub fn plan_connection(host: &str, option: Option<u8>) -> (plan: ConnectionPlan)
    ensures
        plan == planned_connection(host.spec_bytes(), option),
{
    let bytes = host.as_bytes();
    let websocket_bytes: [u8; 2] = [0x77u8, 0x73u8];
    let secured_bytes: [u8; 3] = [0x77u8, 0x73u8, 0x73u8];
    assert(websocket_bytes@ =~= websocket_scheme());
    assert(secured_bytes@ =~= secured_scheme());
    let websocket = begins_with(bytes, websocket_bytes.as_slice());
    let secured = begins_with(bytes, secured_bytes.as_slice());
    let protocol_version = match option {
        Some(version) => if version == ALTERNATE_PROTOCOL_VERSION {
            ALTERNATE_PROTOCOL_VERSION
        } else {
            DEFAULT_PROTOCOL_VERSION
        },
        None => DEFAULT_PROTOCOL_VERSION,
    };
    ConnectionPlan { websocket, secured, protocol_version }
}

/// The subscription filter: the configured one, or `#`, which matches every
/// topic, where none is configured.
pub fn subscription_filter(topic: Option<String>) -> (filter: String)
    ensures
        filter@ == match topic {
            Some(configured) => configured@,
            None => "#"@,
        },
{
    match topic {
        Some(configured) => configured,
        None => "#".to_owned(),
    }
}

/// A secured transport is a web socket: every host that begins with `wss`
/// begins with `ws`.
pub proof fn lemma_secured_implies_websocket(host: Seq<u8>, option: Option<u8>)
    ensures
        planned_connection(host, option).secured ==> planned_connection(host, option).websocket,
        planned_connection(host, option).protocol_version == DEFAULT_PROTOCOL_VERSION
            || planned_connection(host, option).protocol_version == ALTERNATE_PROTOCOL_VERSION,
{
    if is_prefix_of(secured_scheme(), host) {
        assert(host.subrange(0, 3)[0] == 0x77u8);
        assert(host.subrange(0, 3)[1] == 0x73u8);
        assert(host.subrange(0, 2) =~= websocket_scheme());
    }
}

} // verus!

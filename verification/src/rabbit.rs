//! The session with the message broker.
//!
//! Opening a session takes four steps: resolve the broker's name, connect,
//! shake hands over TLS, shake hands with the broker. The steps themselves
//! are input and output; what is decided on the way is here: which address
//! is dialled, and with which options the session is asked for.
//!
//! The options that apply where the agent has no preference are those of
//! the broker's client library. They are read by [`default_options`], whose
//! contract is stated, not proved.

use crate::config::Configuration;
use vstd::prelude::*;

pub mod header_parser;
pub mod state_machine;

verus! {

/// Seconds between two keep-alive signals that the agent asks for.
pub const HEARTBEAT: u16 = 20;

/// Name of the queue that the agent consumes.
pub const QUEUE: &'static str = "hello";

/// Tag under which the agent consumes.
pub const CONSUMER_TAG: &'static str = "my_consumer";

/// Why no transport to the broker could be had.
#[derive(Clone, Copy, Debug, PartialEq, Eq, Structural)]
pub enum NetworkError {
    /// The broker's name resolved to no address.
    DnsResolutionFailed,
    /// No TCP connection could be opened.
    ConnectFailed,
    /// The TLS handshake failed, or the peer's certificate was refused.
    TlsHandshakeFailed,
}

/// As whom the agent opens a session.
#[derive(Clone, Debug, PartialEq, Eq)]
pub struct UserInfo {
    pub username: String,
    pub password: String,
}

/// What the agent would like a session to have; `None` leaves the choice
/// to the broker's defaults.
#[derive(Clone, Copy, Debug, PartialEq, Eq, Structural)]
pub struct QueryString {
    /// Largest frame in bytes.
    pub frame_max: Option<u32>,
    /// Seconds between two keep-alive signals.
    pub heartbeat: Option<u16>,
}

/// What a session is asked for.
#[derive(Clone, Debug, PartialEq, Eq)]
pub struct ConnectionOptions {
    pub username: String,
    pub password: String,
    pub vhost: String,
    pub frame_max: u32,
    pub heartbeat: u16,
}

/// The address to dial among those that a name resolved to: the first, in
/// the order in which the resolver gave them. No other address is tried.
///
/// Fails with `DnsResolutionFailed` exactly when there is none.
pub fn first_address<T: Copy>(addresses: &[T]) -> (r: Result<T, NetworkError>)
    ensures
        addresses@.len() > 0 ==> r == Ok::<T, NetworkError>(addresses@[0]),
        addresses@.len() == 0 ==> r == Err::<T, NetworkError>(NetworkError::DnsResolutionFailed),
{
    if addresses.len() > 0 {
        Ok(addresses[0])
    } else {
        Err(NetworkError::DnsResolutionFailed)
    }
}

impl Configuration {
    /// The credentials of the configuration.
    pub fn user_info(&self) -> (r: UserInfo)
        ensures
            r.username@ == self.username@,
            r.password@ == self.password@,
    {
        UserInfo { username: self.username.clone(), password: self.password.clone() }
    }
}

impl QueryString {
    /// What the agent asks of every session: a keep-alive signal every
    /// [`HEARTBEAT`] seconds, and the frame size that the broker prefers.
    pub fn preferred() -> (r: QueryString)
        ensures
            r.frame_max is None,
            r.heartbeat == Some(HEARTBEAT),
    {
        QueryString { frame_max: None, heartbeat: Some(HEARTBEAT) }
    }
}

/// Frame size that leaves the choice to the broker.
pub const DEFAULT_FRAME_MAX: u32 = 0;

/// Keep-alive interval that leaves the choice to the broker.
pub const DEFAULT_HEARTBEAT: u16 = 0;

/// `lapin_futures::client::ConnectionOptions::default`: the options of a
/// session for which nothing was chosen. User and password are `guest`, the
/// virtual host is `/`, and frame size and keep-alive interval are 0, which
/// leaves both to the broker.
#[verifier::external_body]
fn default_options() -> (r: ConnectionOptions)
    ensures
        r.username@ == "guest"@,
        r.password@ == "guest"@,
        r.vhost@ == "/"@,
        r.frame_max == DEFAULT_FRAME_MAX,
        r.heartbeat == DEFAULT_HEARTBEAT,
{
    let defaults = lapin_futures::client::ConnectionOptions::default();
    ConnectionOptions {
        username: defaults.username,
        password: defaults.password,
        vhost: defaults.vhost,
        frame_max: defaults.frame_max,
        heartbeat: defaults.heartbeat,
    }
}

/// The options to ask a session for: the credentials and the virtual host
/// as given; frame size and keep-alive interval as `query` wants them, and
/// left to the broker where `query` leaves them open.
pub fn connection_options(credentials: UserInfo, vhost: String, query: &QueryString) -> (r:
    ConnectionOptions)
    ensures
        r.username@ == credentials.username@,
        r.password@ == credentials.password@,
        r.vhost@ == vhost@,
        r.frame_max == match query.frame_max {
            Some(wanted) => wanted,
            None => DEFAULT_FRAME_MAX,
        },
        r.heartbeat == match query.heartbeat {
            Some(wanted) => wanted,
            None => DEFAULT_HEARTBEAT,
        },
{
    let defaults = default_options();
    ConnectionOptions {
        username: credentials.username,
        password: credentials.password,
        vhost,
        frame_max: match query.frame_max {
            Some(wanted) => wanted,
            None => defaults.frame_max,
        },
        heartbeat: match query.heartbeat {
            Some(wanted) => wanted,
            None => defaults.heartbeat,
        },
    }
}

} // verus!

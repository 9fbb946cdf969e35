//! Classification of broker notifications by their routing key.
//!
//! The broker publishes a notification for each change in its own state,
//! under a routing key that names the change: a dot-delimited string such
//! as `connection.created`. Only the routing key is read.

use super::state_machine::{
    EventChannelCreated, EventConnectionClosed, EventConnectionCreated, EventConsumerCreated,
    EventConsumerDeleted, EventUserAuthFailure, EventUserAuthSuccess, RabbitMessages,
};
use vstd::prelude::*;
use vstd::string::StringSliceAdditionalSpecFns;
use vstd::utf8::encode_utf8_decode_utf8;

verus! {

/// A change of state that the broker reports.
#[derive(Clone, Copy, Debug, PartialEq, Eq, Structural)]
pub enum RabbitEvent {
    ConnectionCreated,
    ConnectionClosed,
    ConsumerCreated,
    ConsumerDeleted,
    ChannelCreated,
    UserAuthSuccess,
    UserAuthFailure,
}

/// Why a string is no routing key of a notification.
#[derive(Clone, Copy, Debug, PartialEq, Eq, Structural)]
pub enum ParseError {
    /// No kind of notification has this routing key.
    VariantNotFound,
}

/// The routing key under which the broker reports `event`.
pub open spec fn spec_routing_key(event: RabbitEvent) -> Seq<char> {
    match event {
        RabbitEvent::ConnectionCreated => "connection.created"@,
        RabbitEvent::ConnectionClosed => "connection.closed"@,
        RabbitEvent::ConsumerCreated => "consumer.created"@,
        RabbitEvent::ConsumerDeleted => "consumer.deleted"@,
        RabbitEvent::ChannelCreated => "channel.created"@,
        RabbitEvent::UserAuthSuccess => "user.authentication.success"@,
        RabbitEvent::UserAuthFailure => "user.authentication.failure"@,
    }
}

/// The event whose routing key is `key`, if there is one. Keys are compared
/// letter for letter.
pub open spec fn spec_from_str(key: Seq<char>) -> Option<RabbitEvent> {
    if key == spec_routing_key(RabbitEvent::ConnectionCreated) {
        Some(RabbitEvent::ConnectionCreated)
    } else if key == spec_routing_key(RabbitEvent::ConnectionClosed) {
        Some(RabbitEvent::ConnectionClosed)
    } else if key == spec_routing_key(RabbitEvent::ConsumerCreated) {
        Some(RabbitEvent::ConsumerCreated)
    } else if key == spec_routing_key(RabbitEvent::ConsumerDeleted) {
        Some(RabbitEvent::ConsumerDeleted)
    } else if key == spec_routing_key(RabbitEvent::ChannelCreated) {
        Some(RabbitEvent::ChannelCreated)
    } else if key == spec_routing_key(RabbitEvent::UserAuthSuccess) {
        Some(RabbitEvent::UserAuthSuccess)
    } else if key == spec_routing_key(RabbitEvent::UserAuthFailure) {
        Some(RabbitEvent::UserAuthFailure)
    } else {
        None
    }
}

/// The message by which the state machine learns of `event`.
pub open spec fn spec_message(event: RabbitEvent) -> RabbitMessages {
    match event {
        RabbitEvent::ConnectionCreated => RabbitMessages::EventConnectionCreated(
            EventConnectionCreated,
        ),
        RabbitEvent::ConnectionClosed => RabbitMessages::EventConnectionClosed(
            EventConnectionClosed,
        ),
        RabbitEvent::ConsumerCreated => RabbitMessages::EventConsumerCreated(EventConsumerCreated),
        RabbitEvent::ConsumerDeleted => RabbitMessages::EventConsumerDeleted(EventConsumerDeleted),
        RabbitEvent::ChannelCreated => RabbitMessages::EventChannelCreated(EventChannelCreated),
        RabbitEvent::UserAuthSuccess => RabbitMessages::EventUserAuthSuccess(EventUserAuthSuccess),
        RabbitEvent::UserAuthFailure => RabbitMessages::EventUserAuthFailure(EventUserAuthFailure),
    }
}

/// Whether two strings hold the same characters.
fn str_eq(a: &str, b: &str) -> (r: bool)
    ensures
        r == (a@ == b@),
{
    let x = a.as_bytes();
    let y = b.as_bytes();
    proof {
        encode_utf8_decode_utf8(a@);
        encode_utf8_decode_utf8(b@);
    }
    if x.len() != y.len() {
        return false;
    }
    let mut i: usize = 0;
    while i < x.len()
        invariant
            i <= x@.len(),
            x@.len() == y@.len(),
            x@ == a.spec_bytes(),
            y@ == b.spec_bytes(),
            forall|j: int| 0 <= j < i ==> x@[j] == y@[j],
        decreases x@.len() - i,
    {
        if x[i] != y[i] {
            return false;
        }
        i += 1;
    }
    assert(x@ =~= y@);
    true
}

impl RabbitEvent {
    /// The event whose routing key is `s`.
    ///
    /// Fails with `VariantNotFound` exactly when `s` is none of the seven
    /// routing keys.
    pub fn from_str(s: &str) -> (r: Result<RabbitEvent, ParseError>)
        ensures
            r == match spec_from_str(s@) {
                Some(event) => Ok::<RabbitEvent, ParseError>(event),
                None => Err::<RabbitEvent, ParseError>(ParseError::VariantNotFound),
            },
    {
        if str_eq(s, "connection.created") {
            Ok(RabbitEvent::ConnectionCreated)
        } else if str_eq(s, "connection.closed") {
            Ok(RabbitEvent::ConnectionClosed)
        } else if str_eq(s, "consumer.created") {
            Ok(RabbitEvent::ConsumerCreated)
        } else if str_eq(s, "consumer.deleted") {
            Ok(RabbitEvent::ConsumerDeleted)
        } else if str_eq(s, "channel.created") {
            Ok(RabbitEvent::ChannelCreated)
        } else if str_eq(s, "user.authentication.success") {
            Ok(RabbitEvent::UserAuthSuccess)
        } else if str_eq(s, "user.authentication.failure") {
            Ok(RabbitEvent::UserAuthFailure)
        } else {
            Err(ParseError::VariantNotFound)
        }
    }

    /// The routing key under which the broker reports the event.
    pub fn routing_key(&self) -> (r: &'static str)
        ensures
            r@ == spec_routing_key(*self),
    {
        match self {
            RabbitEvent::ConnectionCreated => "connection.created",
            RabbitEvent::ConnectionClosed => "connection.closed",
            RabbitEvent::ConsumerCreated => "consumer.created",
            RabbitEvent::ConsumerDeleted => "consumer.deleted",
            RabbitEvent::ChannelCreated => "channel.created",
            RabbitEvent::UserAuthSuccess => "user.authentication.success",
            RabbitEvent::UserAuthFailure => "user.authentication.failure",
        }
    }

    /// The message by which the state machine learns of the event.
    pub fn message(self) -> (r: RabbitMessages)
        ensures
            r == spec_message(self),
    {
        match self {
            RabbitEvent::ConnectionCreated => RabbitMessages::EventConnectionCreated(
                EventConnectionCreated,
            ),
            RabbitEvent::ConnectionClosed => RabbitMessages::EventConnectionClosed(
                EventConnectionClosed,
            ),
            RabbitEvent::ConsumerCreated => RabbitMessages::EventConsumerCreated(
                EventConsumerCreated,
            ),
            RabbitEvent::ConsumerDeleted => RabbitMessages::EventConsumerDeleted(
                EventConsumerDeleted,
            ),
            RabbitEvent::ChannelCreated => RabbitMessages::EventChannelCreated(EventChannelCreated),
            RabbitEvent::UserAuthSuccess => RabbitMessages::EventUserAuthSuccess(
                EventUserAuthSuccess,
            ),
            RabbitEvent::UserAuthFailure => RabbitMessages::EventUserAuthFailure(
                EventUserAuthFailure,
            ),
        }
    }
}

/// Classifies a notification by its routing key.
///
/// Returns the message to hand to the state machine, or `None` for a key
/// that is not recognised; the caller drops such a notification, and the
/// state machine never hears of it.
pub fn parse_header(routing_key: &str) -> (r: Option<RabbitMessages>)
    ensures
        r == match spec_from_str(routing_key@) {
            Some(event) => Some(spec_message(event)),
            None => None::<RabbitMessages>,
        },
{
    match RabbitEvent::from_str(routing_key) {
        Ok(event) => Some(event.message()),
        Err(_) => None,
    }
}

/// Each event is found again by its own routing key: no two events share
/// one.
pub proof fn law_routing_key_names_its_event(event: RabbitEvent)
    ensures
        spec_from_str(spec_routing_key(event)) == Some(event),
{
    reveal_strlit("connection.created");
    reveal_strlit("connection.closed");
    reveal_strlit("consumer.created");
    reveal_strlit("consumer.deleted");
    reveal_strlit("channel.created");
    reveal_strlit("user.authentication.success");
    reveal_strlit("user.authentication.failure");
    assert("connection.created"@.len() == 18);
    assert("connection.closed"@.len() == 17);
    assert("consumer.created"@.len() == 16);
    assert("consumer.deleted"@.len() == 16);
    assert("channel.created"@.len() == 15);
    assert("user.authentication.success"@.len() == 27);
    assert("user.authentication.failure"@.len() == 27);
    assert("consumer.created"@[9] != "consumer.deleted"@[9]);
    assert("user.authentication.success"@[20] != "user.authentication.failure"@[20]);
}

/// Every notification that is recognised is one that a running connection
/// accepts.
pub proof fn law_recognised_is_notification(key: Seq<char>)
    requires
        spec_from_str(key) is Some,
    ensures
        super::state_machine::spec_is_notification(spec_message(spec_from_str(key).unwrap())),
{
}

} // verus!

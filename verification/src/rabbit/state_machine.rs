//! The lifecycle of the connection to the broker.
//!
//! | from | message | to |
//! |---|---|---|
//! | `Offline` | `Connect` | `Connected` |
//! | `Connected` | `Configure` | `Configured` |
//! | `Configured` | `ConfigureDone` | `UpAndRunning` |
//! | `Connected`, `Configured`, `UpAndRunning` | `Disconnect` | `Offline` |
//! | `UpAndRunning` | a broker notification | `UpAndRunning` |
//!
//! Every other pair of state and message is refused with a [`StateError`].
//! Each state is a type of its own, whose methods are the transitions that
//! the state allows; [`Rabbit`] holds whichever state the connection is in.

use vstd::prelude::*;

verus! {

/// No connection to the broker. The machine starts here.
#[derive(Clone, Debug, PartialEq, Eq)]
pub struct Offline {}

/// The transport is up and the broker has accepted the session.
#[derive(Clone, Debug, PartialEq, Eq)]
pub struct Connected {}

/// Channel, queue and consumer are being set up.
#[derive(Clone, Debug, PartialEq, Eq)]
pub struct Configured {}

/// Messages are being consumed.
#[derive(Clone, Debug, PartialEq, Eq)]
pub struct UpAndRunning {}

/// Asks to open the connection to the broker.
#[derive(Clone, Debug, PartialEq, Eq)]
pub struct Connect;

/// Asks to open the connection again. No state accepts it yet.
#[derive(Clone, Debug, PartialEq, Eq)]
pub struct TryReconnect;

/// Asks to set up channel, queue and consumer.
#[derive(Clone, Debug, PartialEq, Eq)]
pub struct Configure;

/// Reports that channel, queue and consumer are set up.
#[derive(Clone, Debug, PartialEq, Eq)]
pub struct ConfigureDone;

/// The broker reports a new connection.
#[derive(Clone, Debug, PartialEq, Eq)]
pub struct EventConnectionCreated;

/// The broker reports a closed connection.
#[derive(Clone, Debug, PartialEq, Eq)]
pub struct EventConnectionClosed;

/// The broker reports a new consumer.
#[derive(Clone, Debug, PartialEq, Eq)]
pub struct EventConsumerCreated;

/// The broker reports a deleted consumer.
#[derive(Clone, Debug, PartialEq, Eq)]
pub struct EventConsumerDeleted;

/// The broker reports a new channel.
#[derive(Clone, Debug, PartialEq, Eq)]
pub struct EventChannelCreated;

/// The broker reports a user that authenticated.
#[derive(Clone, Debug, PartialEq, Eq)]
pub struct EventUserAuthSuccess;

/// The broker reports a user that failed to authenticate.
#[derive(Clone, Debug, PartialEq, Eq)]
pub struct EventUserAuthFailure;

/// A route was assigned.
#[derive(Clone, Debug, PartialEq, Eq)]
pub struct EventAssignRoute;

/// A route was unassigned.
#[derive(Clone, Debug, PartialEq, Eq)]
pub struct EventUnassignRoute;

/// A route was withdrawn.
#[derive(Clone, Debug, PartialEq, Eq)]
pub struct EventWithdraw;

/// Reports that the connection is gone, or asks to drop it.
#[derive(Clone, Debug, PartialEq, Eq)]
pub struct Disconnect;

/// An entry was removed for good.
#[derive(Clone, Debug, PartialEq, Eq)]
pub struct RemovePermanently;

/// The state of the connection.
#[derive(Clone, Debug, PartialEq, Eq)]
pub enum Rabbit {
    Offline(Offline),
    Connected(Connected),
    Configured(Configured),
    UpAndRunning(UpAndRunning),
}

/// A message to the state machine.
#[derive(Clone, Debug, PartialEq, Eq)]
pub enum RabbitMessages {
    Connect(Connect),
    TryReconnect(TryReconnect),
    Configure(Configure),
    ConfigureDone(ConfigureDone),
    EventConnectionCreated(EventConnectionCreated),
    EventConnectionClosed(EventConnectionClosed),
    EventConsumerCreated(EventConsumerCreated),
    EventConsumerDeleted(EventConsumerDeleted),
    EventChannelCreated(EventChannelCreated),
    EventUserAuthSuccess(EventUserAuthSuccess),
    EventUserAuthFailure(EventUserAuthFailure),
    EventAssignRoute(EventAssignRoute),
    EventUnassignRoute(EventUnassignRoute),
    EventWithdraw(EventWithdraw),
    Disconnect(Disconnect),
    RemovePermanently(RemovePermanently),
}

/// A message that the state it met does not accept. The machine is left
/// where it was: `state` is that state, `message` the message refused.
#[derive(Clone, Debug, PartialEq, Eq)]
pub struct StateError {
    pub state: Rabbit,
    pub message: RabbitMessages,
}

/// Whether a message is a notification of the broker, which a running
/// connection takes note of without changing state.
pub open spec fn spec_is_notification(message: RabbitMessages) -> bool {
    match message {
        RabbitMessages::EventConnectionCreated(_) => true,
        RabbitMessages::EventConnectionClosed(_) => true,
        RabbitMessages::EventConsumerCreated(_) => true,
        RabbitMessages::EventConsumerDeleted(_) => true,
        RabbitMessages::EventChannelCreated(_) => true,
        RabbitMessages::EventUserAuthSuccess(_) => true,
        RabbitMessages::EventUserAuthFailure(_) => true,
        RabbitMessages::EventAssignRoute(_) => true,
        RabbitMessages::EventUnassignRoute(_) => true,
        RabbitMessages::EventWithdraw(_) => true,
        RabbitMessages::RemovePermanently(_) => true,
        _ => false,
    }
}

/// The transition table: the state that `message` leads to from `state`,
/// where the table has the pair.
pub open spec fn spec_transition(state: Rabbit, message: RabbitMessages) -> Option<Rabbit> {
    match state {
        Rabbit::Offline(_) => match message {
            RabbitMessages::Connect(_) => Some(Rabbit::Connected(Connected {  })),
            _ => None,
        },
        Rabbit::Connected(_) => match message {
            RabbitMessages::Configure(_) => Some(Rabbit::Configured(Configured {  })),
            RabbitMessages::Disconnect(_) => Some(Rabbit::Offline(Offline {  })),
            _ => None,
        },
        Rabbit::Configured(_) => match message {
            RabbitMessages::ConfigureDone(_) => Some(Rabbit::UpAndRunning(UpAndRunning {  })),
            RabbitMessages::Disconnect(_) => Some(Rabbit::Offline(Offline {  })),
            _ => None,
        },
        Rabbit::UpAndRunning(running) => match message {
            RabbitMessages::Disconnect(_) => Some(Rabbit::Offline(Offline {  })),
            _ => if spec_is_notification(message) {
                Some(Rabbit::UpAndRunning(running))
            } else {
                None
            },
        },
    }
}

/// What handing `message` to the machine in `state` gives: the next state,
/// or the refusal that names both.
pub open spec fn spec_execute(state: Rabbit, message: RabbitMessages) -> Result<
    Rabbit,
    StateError,
> {
    match spec_transition(state, message) {
        Some(next) => Ok(next),
        None => Err(StateError { state, message }),
    }
}

impl Offline {
    /// The session is open.
    pub fn on_connect(self, _input: Connect) -> (r: Connected)
        ensures
            r == (Connected {  }),
    {
        Connected {  }
    }
}

impl Connected {
    /// Channel, queue and consumer are being set up.
    pub fn on_configure(self, _input: Configure) -> (r: Configured)
        ensures
            r == (Configured {  }),
    {
        Configured {  }
    }

    /// The connection is gone.
    pub fn on_disconnect(self, _input: Disconnect) -> (r: Offline)
        ensures
            r == (Offline {  }),
    {
        Offline {  }
    }
}

impl Configured {
    /// The consumer runs.
    pub fn on_configure_done(self, _input: ConfigureDone) -> (r: UpAndRunning)
        ensures
            r == (UpAndRunning {  }),
    {
        UpAndRunning {  }
    }

    /// The connection is gone.
    pub fn on_disconnect(self, _input: Disconnect) -> (r: Offline)
        ensures
            r == (Offline {  }),
    {
        Offline {  }
    }
}

impl UpAndRunning {
    /// Takes note of the notification; the session runs on.
    pub fn on_event_connection_created(self, _input: EventConnectionCreated) -> (r: UpAndRunning)
        ensures
            r == self,
    {
        self
    }

    /// Takes note of the notification; the session runs on.
    pub fn on_event_connection_closed(self, _input: EventConnectionClosed) -> (r: UpAndRunning)
        ensures
            r == self,
    {
        self
    }

    /// Takes note of the notification; the session runs on.
    pub fn on_event_consumer_created(self, _input: EventConsumerCreated) -> (r: UpAndRunning)
        ensures
            r == self,
    {
        self
    }

    /// Takes note of the notification; the session runs on.
    pub fn on_event_consumer_deleted(self, _input: EventConsumerDeleted) -> (r: UpAndRunning)
        ensures
            r == self,
    {
        self
    }

    /// Takes note of the notification; the session runs on.
    pub fn on_event_channel_created(self, _input: EventChannelCreated) -> (r: UpAndRunning)
        ensures
            r == self,
    {
        self
    }

    /// Takes note of the notification; the session runs on.
    pub fn on_event_user_auth_success(self, _input: EventUserAuthSuccess) -> (r: UpAndRunning)
        ensures
            r == self,
    {
        self
    }

    /// Takes note of the notification; the session runs on.
    pub fn on_event_user_auth_failure(self, _input: EventUserAuthFailure) -> (r: UpAndRunning)
        ensures
            r == self,
    {
        self
    }

    /// Takes note of the notification; the session runs on.
    pub fn on_event_assign_route(self, _input: EventAssignRoute) -> (r: UpAndRunning)
        ensures
            r == self,
    {
        self
    }

    /// Takes note of the notification; the session runs on.
    pub fn on_event_unassign_route(self, _input: EventUnassignRoute) -> (r: UpAndRunning)
        ensures
            r == self,
    {
        self
    }

    /// Takes note of the notification; the session runs on.
    pub fn on_event_withdraw(self, _input: EventWithdraw) -> (r: UpAndRunning)
        ensures
            r == self,
    {
        self
    }

    /// Takes note of the notification; the session runs on.
    pub fn on_remove_permanently(self, _input: RemovePermanently) -> (r: UpAndRunning)
        ensures
            r == self,
    {
        self
    }

    /// The connection is gone.
    pub fn on_disconnect(self, _input: Disconnect) -> (r: Offline)
        ensures
            r == (Offline {  }),
    {
        Offline {  }
    }
}

impl Default for Rabbit {
    /// Every machine starts offline.
    fn default() -> (r: Rabbit)
        ensures
            r == Rabbit::Offline(Offline {  }),
    {
        Rabbit::Offline(Offline {  })
    }
}

impl Rabbit {
    /// The state in which every machine starts.
    pub fn offline() -> (r: Rabbit)
        ensures
            r == Rabbit::Offline(Offline {  }),
    {
        Rabbit::Offline(Offline {  })
    }

    /// The state of an open session.
    pub fn connected() -> (r: Rabbit)
        ensures
            r == Rabbit::Connected(Connected {  }),
    {
        Rabbit::Connected(Connected {  })
    }

    /// The state of a session that is being set up.
    pub fn configured() -> (r: Rabbit)
        ensures
            r == Rabbit::Configured(Configured {  }),
    {
        Rabbit::Configured(Configured {  })
    }

    /// The state of a session that consumes.
    pub fn up_and_running() -> (r: Rabbit)
        ensures
            r == Rabbit::UpAndRunning(UpAndRunning {  }),
    {
        Rabbit::UpAndRunning(UpAndRunning {  })
    }

    /// Hands a `Connect` to the machine: the next state, or the refusal.
    pub fn on_connect(self, input: Connect) -> (r: Result<Rabbit, StateError>)
        ensures
            r == spec_execute(self, RabbitMessages::Connect(input)),
    {
        match self {
            Rabbit::Offline(state) => Ok(Rabbit::Connected(state.on_connect(input))),
            state => Err(StateError { state, message: RabbitMessages::Connect(input) }),
        }
    }

    /// Hands a `TryReconnect` to the machine: the next state, or the refusal.
    pub fn on_try_reconnect(self, input: TryReconnect) -> (r: Result<Rabbit, StateError>)
        ensures
            r == spec_execute(self, RabbitMessages::TryReconnect(input)),
    {
        Err(StateError { state: self, message: RabbitMessages::TryReconnect(input) })
    }

    /// Hands a `Configure` to the machine: the next state, or the refusal.
    pub fn on_configure(self, input: Configure) -> (r: Result<Rabbit, StateError>)
        ensures
            r == spec_execute(self, RabbitMessages::Configure(input)),
    {
        match self {
            Rabbit::Connected(state) => Ok(Rabbit::Configured(state.on_configure(input))),
            state => Err(StateError { state, message: RabbitMessages::Configure(input) }),
        }
    }

    /// Hands a `ConfigureDone` to the machine: the next state, or the refusal.
    pub fn on_configure_done(self, input: ConfigureDone) -> (r: Result<Rabbit, StateError>)
        ensures
            r == spec_execute(self, RabbitMessages::ConfigureDone(input)),
    {
        match self {
            Rabbit::Configured(state) => Ok(Rabbit::UpAndRunning(state.on_configure_done(input))),
            state => Err(StateError { state, message: RabbitMessages::ConfigureDone(input) }),
        }
    }

    /// Hands a `EventConnectionCreated` to the machine: the next state, or the refusal.
    pub fn on_event_connection_created(self, input: EventConnectionCreated) -> (r: Result<Rabbit, StateError>)
        ensures
            r == spec_execute(self, RabbitMessages::EventConnectionCreated(input)),
    {
        match self {
            Rabbit::UpAndRunning(state) => Ok(Rabbit::UpAndRunning(state.on_event_connection_created(input))),
            state => Err(StateError { state, message: RabbitMessages::EventConnectionCreated(input) }),
        }
    }

    /// Hands a `EventConnectionClosed` to the machine: the next state, or the refusal.
    pub fn on_event_connection_closed(self, input: EventConnectionClosed) -> (r: Result<Rabbit, StateError>)
        ensures
            r == spec_execute(self, RabbitMessages::EventConnectionClosed(input)),
    {
        match self {
            Rabbit::UpAndRunning(state) => Ok(Rabbit::UpAndRunning(state.on_event_connection_closed(input))),
            state => Err(StateError { state, message: RabbitMessages::EventConnectionClosed(input) }),
        }
    }

    /// Hands a `EventConsumerCreated` to the machine: the next state, or the refusal.
    pub fn on_event_consumer_created(self, input: EventConsumerCreated) -> (r: Result<Rabbit, StateError>)
        ensures
            r == spec_execute(self, RabbitMessages::EventConsumerCreated(input)),
    {
        match self {
            Rabbit::UpAndRunning(state) => Ok(Rabbit::UpAndRunning(state.on_event_consumer_created(input))),
            state => Err(StateError { state, message: RabbitMessages::EventConsumerCreated(input) }),
        }
    }

    /// Hands a `EventConsumerDeleted` to the machine: the next state, or the refusal.
    pub fn on_event_consumer_deleted(self, input: EventConsumerDeleted) -> (r: Result<Rabbit, StateError>)
        ensures
            r == spec_execute(self, RabbitMessages::EventConsumerDeleted(input)),
    {
        match self {
            Rabbit::UpAndRunning(state) => Ok(Rabbit::UpAndRunning(state.on_event_consumer_deleted(input))),
            state => Err(StateError { state, message: RabbitMessages::EventConsumerDeleted(input) }),
        }
    }

    /// Hands a `EventChannelCreated` to the machine: the next state, or the refusal.
    pub fn on_event_channel_created(self, input: EventChannelCreated) -> (r: Result<Rabbit, StateError>)
        ensures
            r == spec_execute(self, RabbitMessages::EventChannelCreated(input)),
    {
        match self {
            Rabbit::UpAndRunning(state) => Ok(Rabbit::UpAndRunning(state.on_event_channel_created(input))),
            state => Err(StateError { state, message: RabbitMessages::EventChannelCreated(input) }),
        }
    }

    /// Hands a `EventUserAuthSuccess` to the machine: the next state, or the refusal.
    pub fn on_event_user_auth_success(self, input: EventUserAuthSuccess) -> (r: Result<Rabbit, StateError>)
        ensures
            r == spec_execute(self, RabbitMessages::EventUserAuthSuccess(input)),
    {
        match self {
            Rabbit::UpAndRunning(state) => Ok(Rabbit::UpAndRunning(state.on_event_user_auth_success(input))),
            state => Err(StateError { state, message: RabbitMessages::EventUserAuthSuccess(input) }),
        }
    }

    /// Hands a `EventUserAuthFailure` to the machine: the next state, or the refusal.
    pub fn on_event_user_auth_failure(self, input: EventUserAuthFailure) -> (r: Result<Rabbit, StateError>)
        ensures
            r == spec_execute(self, RabbitMessages::EventUserAuthFailure(input)),
    {
        match self {
            Rabbit::UpAndRunning(state) => Ok(Rabbit::UpAndRunning(state.on_event_user_auth_failure(input))),
            state => Err(StateError { state, message: RabbitMessages::EventUserAuthFailure(input) }),
        }
    }

    /// Hands a `EventAssignRoute` to the machine: the next state, or the refusal.
    pub fn on_event_assign_route(self, input: EventAssignRoute) -> (r: Result<Rabbit, StateError>)
        ensures
            r == spec_execute(self, RabbitMessages::EventAssignRoute(input)),
    {
        match self {
            Rabbit::UpAndRunning(state) => Ok(Rabbit::UpAndRunning(state.on_event_assign_route(input))),
            state => Err(StateError { state, message: RabbitMessages::EventAssignRoute(input) }),
        }
    }

    /// Hands a `EventUnassignRoute` to the machine: the next state, or the refusal.
    pub fn on_event_unassign_route(self, input: EventUnassignRoute) -> (r: Result<Rabbit, StateError>)
        ensures
            r == spec_execute(self, RabbitMessages::EventUnassignRoute(input)),
    {
        match self {
            Rabbit::UpAndRunning(state) => Ok(Rabbit::UpAndRunning(state.on_event_unassign_route(input))),
            state => Err(StateError { state, message: RabbitMessages::EventUnassignRoute(input) }),
        }
    }

    /// Hands a `EventWithdraw` to the machine: the next state, or the refusal.
    pub fn on_event_withdraw(self, input: EventWithdraw) -> (r: Result<Rabbit, StateError>)
        ensures
            r == spec_execute(self, RabbitMessages::EventWithdraw(input)),
    {
        match self {
            Rabbit::UpAndRunning(state) => Ok(Rabbit::UpAndRunning(state.on_event_withdraw(input))),
            state => Err(StateError { state, message: RabbitMessages::EventWithdraw(input) }),
        }
    }

    /// Hands a `Disconnect` to the machine: the next state, or the refusal.
    pub fn on_disconnect(self, input: Disconnect) -> (r: Result<Rabbit, StateError>)
        ensures
            r == spec_execute(self, RabbitMessages::Disconnect(input)),
    {
        match self {
            Rabbit::Connected(state) => Ok(Rabbit::Offline(state.on_disconnect(input))),
            Rabbit::Configured(state) => Ok(Rabbit::Offline(state.on_disconnect(input))),
            Rabbit::UpAndRunning(state) => Ok(Rabbit::Offline(state.on_disconnect(input))),
            state => Err(StateError { state, message: RabbitMessages::Disconnect(input) }),
        }
    }

    /// Hands a `RemovePermanently` to the machine: the next state, or the refusal.
    pub fn on_remove_permanently(self, input: RemovePermanently) -> (r: Result<Rabbit, StateError>)
        ensures
            r == spec_execute(self, RabbitMessages::RemovePermanently(input)),
    {
        match self {
            Rabbit::UpAndRunning(state) => Ok(Rabbit::UpAndRunning(state.on_remove_permanently(input))),
            state => Err(StateError { state, message: RabbitMessages::RemovePermanently(input) }),
        }
    }

    /// Hands a message to the machine.
    ///
    /// Returns the next state where the table has the pair of state and
    /// message, and otherwise the refusal: no message is dropped in silence.
    pub fn execute(self, input: RabbitMessages) -> (r: Result<Rabbit, StateError>)
        ensures
            r == spec_execute(self, input),
    {
        match input {
            RabbitMessages::Connect(message) => self.on_connect(message),
            RabbitMessages::TryReconnect(message) => self.on_try_reconnect(message),
            RabbitMessages::Configure(message) => self.on_configure(message),
            RabbitMessages::ConfigureDone(message) => self.on_configure_done(message),
            RabbitMessages::EventConnectionCreated(message) => self.on_event_connection_created(message),
            RabbitMessages::EventConnectionClosed(message) => self.on_event_connection_closed(message),
            RabbitMessages::EventConsumerCreated(message) => self.on_event_consumer_created(message),
            RabbitMessages::EventConsumerDeleted(message) => self.on_event_consumer_deleted(message),
            RabbitMessages::EventChannelCreated(message) => self.on_event_channel_created(message),
            RabbitMessages::EventUserAuthSuccess(message) => self.on_event_user_auth_success(message),
            RabbitMessages::EventUserAuthFailure(message) => self.on_event_user_auth_failure(message),
            RabbitMessages::EventAssignRoute(message) => self.on_event_assign_route(message),
            RabbitMessages::EventUnassignRoute(message) => self.on_event_unassign_route(message),
            RabbitMessages::EventWithdraw(message) => self.on_event_withdraw(message),
            RabbitMessages::Disconnect(message) => self.on_disconnect(message),
            RabbitMessages::RemovePermanently(message) => self.on_remove_permanently(message),
        }
    }
}

/// From `Offline` only `Connect` is accepted, and it leads to `Connected`.
pub proof fn law_offline_accepts_only_connect(message: RabbitMessages)
    ensures
        spec_transition(Rabbit::Offline(Offline {  }), message) is Some <==> message is Connect,
        message is Connect ==> spec_transition(Rabbit::Offline(Offline {  }), message) == Some(
            Rabbit::Connected(Connected {  }),
        ),
        !(message is Connect) ==> spec_execute(Rabbit::Offline(Offline {  }), message) is Err,
{
}

/// From every state but `Offline`, `Disconnect` leads to `Offline`.
pub proof fn law_disconnect_leads_offline(state: Rabbit)
    requires
        !(state is Offline),
    ensures
        spec_execute(state, RabbitMessages::Disconnect(Disconnect)) == Ok::<Rabbit, StateError>(
            Rabbit::Offline(Offline {  }),
        ),
{
}

/// A running connection stays as it is under every broker notification.
pub proof fn law_notification_keeps_running(state: Rabbit, message: RabbitMessages)
    requires
        state is UpAndRunning,
        spec_is_notification(message),
    ensures
        spec_execute(state, message) == Ok::<Rabbit, StateError>(state),
{
}

/// A refusal leaves the machine where it was and names the message.
pub proof fn law_refusal_keeps_state(state: Rabbit, message: RabbitMessages)
    requires
        spec_execute(state, message) is Err,
    ensures
        spec_transition(state, message) is None,
        spec_execute(state, message) == Err::<Rabbit, StateError>(StateError { state, message }),
{
}

/// No state is final: from each, some message is accepted.
pub proof fn law_no_terminal_state(state: Rabbit)
    ensures
        exists|message: RabbitMessages| spec_transition(state, message) is Some,
{
    if state is Offline {
        assert(spec_transition(state, RabbitMessages::Connect(Connect)) is Some);
    } else {
        assert(spec_transition(state, RabbitMessages::Disconnect(Disconnect)) is Some);
    }
}

} // verus!

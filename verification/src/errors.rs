//! The error type of the fallible operations.

use crate::events::Event;
use tokio::task::JoinError;
use vstd::prelude::*;

verus! {

/// `tokio::task::JoinError`: what awaiting a task yields when the task was
/// cancelled or panicked. The library only carries such a value to its
/// caller; nothing is claimed of what it holds.
#[verifier::external_type_specification]
#[verifier::external_body]
pub struct ExJoinError(JoinError);

/// Why an operation of the client failed.
#[derive(Debug)]
pub enum Error {
    /// The connection to the broker reported a failure; the text is the
    /// connection's own description of it.
    MqttError(String),
    /// The dispatch task ended abnormally.
    JoinError(JoinError),
    /// An event was published while the bus had no receiver; the event is
    /// handed back.
    ChannelError(Event),
    /// The client was asked to start but is already started.
    ClientAlreadyStarted,
    /// The client was asked to stop but is already stopped.
    ClientAlreadyStopped,
}

impl Error {
    /// The text that describes each kind of error.
    pub open spec fn message_spec(&self) -> Seq<char> {
        match *self {
            Error::MqttError(_) => "MQTT error"@,
            Error::JoinError(_) => "Task join error"@,
            Error::ChannelError(_) => "Channel error"@,
            Error::ClientAlreadyStarted => "Client was requested to start but is already started"@,
            Error::ClientAlreadyStopped => "Client was requested to stop but is already stopped"@,
        }
    }

    /// A one-line description of the error.
    pub fn message(&self) -> (s: &'static str)
        ensures
            s@ == self.message_spec(),
    {
        match self {
            Error::MqttError(_) => "MQTT error",
            Error::JoinError(_) => "Task join error",
            Error::ChannelError(_) => "Channel error",
            Error::ClientAlreadyStarted => "Client was requested to start but is already started",
            Error::ClientAlreadyStopped => "Client was requested to stop but is already stopped",
        }
    }
}

} // verus!

//! The closed error taxonomy of the initialization protocol and the mapping
//! from domain simulation-construction errors to wire error codes.

use vstd::prelude::*;
use vstd::string::StringExecFns;

verus! {

/// Stable error identifiers consumed by remote clients for programmatic
/// handling. Every failed initialization reply carries exactly one of these.
#[derive(Clone, Copy, Debug, PartialEq, Eq, Structural)]
pub enum ErrorCode {
    /// The request carried no usable start timestamp.
    InvalidTime,
    /// The serialized configuration could not be decoded.
    InvalidMessage,
    /// The caller-supplied initializer aborted abnormally, or the first
    /// lifecycle transition failed.
    InitializerPanic,
    SimulationDeadlock,
    SimulationMessageLoss,
    SimulationNoRecipient,
    SimulationPanic,
    SimulationTimeout,
    SimulationOutOfSync,
    SimulationTerminated,
}

/// A typed simulation-construction error returned by the generator when it
/// fails without aborting.
#[derive(Clone, Copy, Debug, PartialEq, Eq, Structural)]
pub enum SimulationError {
    Deadlock,
    MessageLoss,
    NoRecipient,
    Panic,
    Timeout,
    OutOfSync,
    Terminated,
}

/// The wire code that stands for each domain simulation error.
pub open spec fn sim_error_code(e: SimulationError) -> ErrorCode {
    match e {
        SimulationError::Deadlock => ErrorCode::SimulationDeadlock,
        SimulationError::MessageLoss => ErrorCode::SimulationMessageLoss,
        SimulationError::NoRecipient => ErrorCode::SimulationNoRecipient,
        SimulationError::Panic => ErrorCode::SimulationPanic,
        SimulationError::Timeout => ErrorCode::SimulationTimeout,
        SimulationError::OutOfSync => ErrorCode::SimulationOutOfSync,
        SimulationError::Terminated => ErrorCode::SimulationTerminated,
    }
}

/// The human-readable description that accompanies each domain error code.
pub open spec fn sim_error_text(e: SimulationError) -> Seq<char> {
    match e {
        SimulationError::Deadlock => "the simulation has deadlocked"@,
        SimulationError::MessageLoss => "a message was lost"@,
        SimulationError::NoRecipient => "an event has no recipient"@,
        SimulationError::Panic => "a simulation model has panicked"@,
        SimulationError::Timeout => "the simulation step has timed out"@,
        SimulationError::OutOfSync => "the simulation is out of sync"@,
        SimulationError::Terminated => "the simulation has been terminated"@,
    }
}

/// Maps a domain simulation-construction error to its wire error code.
///
/// The mapping is total and closed: for every domain error variant the
/// returned code equals `sim_error_code` of that variant.
pub fn map_simulation_error(e: SimulationError) -> (c: ErrorCode)
    ensures
        c == sim_error_code(e),
{
    match e {
        SimulationError::Deadlock => ErrorCode::SimulationDeadlock,
        SimulationError::MessageLoss => ErrorCode::SimulationMessageLoss,
        SimulationError::NoRecipient => ErrorCode::SimulationNoRecipient,
        SimulationError::Panic => ErrorCode::SimulationPanic,
        SimulationError::Timeout => ErrorCode::SimulationTimeout,
        SimulationError::OutOfSync => ErrorCode::SimulationOutOfSync,
        SimulationError::Terminated => ErrorCode::SimulationTerminated,
    }
}

/// The description of a domain simulation error, for the reply message.
pub fn simulation_error_message(e: SimulationError) -> (s: String)
    ensures
        s@ == sim_error_text(e),
{
    match e {
        SimulationError::Deadlock => String::from_str("the simulation has deadlocked"),
        SimulationError::MessageLoss => String::from_str("a message was lost"),
        SimulationError::NoRecipient => String::from_str("an event has no recipient"),
        SimulationError::Panic => String::from_str("a simulation model has panicked"),
        SimulationError::Timeout => String::from_str("the simulation step has timed out"),
        SimulationError::OutOfSync => String::from_str("the simulation is out of sync"),
        SimulationError::Terminated => String::from_str("the simulation has been terminated"),
    }
}

/// A structured error reply: one stable code and a human-readable message.
#[derive(Debug)]
pub struct ReplyError {
    pub code: ErrorCode,
    pub message: String,
}

/// Builds a structured error from a code and a message.
pub fn to_error(code: ErrorCode, message: String) -> (e: ReplyError)
    ensures
        e.code == code,
        e.message == message,
{
    ReplyError { code, message }
}

} // verus!

//! Core boundary mechanisms of a discrete-event simulation runtime's
//! remote-control surface: an observable state container that propagates
//! every mutation to an output sink, and an initialization service that
//! boots a new simulation instance from a serialized configuration and
//! reports structured outcomes.

pub mod codec;
pub mod errors;
pub mod init_service;
pub mod simulation;
pub mod observables;
pub mod time;

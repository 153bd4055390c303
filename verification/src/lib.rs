//! Event log and event payloads of a crowdfunding contract.
//!
//! Every contract action announces itself by publishing an event (a list of
//! topics whose first element is the event's name, and a data payload) and
//! by appending a numbered record to a global event log kept in persistent
//! storage.
//!
//! The library is a state machine over the part of the contract host that
//! this logic touches: the ledger timestamp, the two persistent storage cells
//! of the event log, and the list of events published so far.  A host
//! adapter reads these values, runs one emitter, then publishes the new
//! events and writes the log back.
pub mod events;
pub mod host;
pub mod kind;
pub mod laws;
pub mod model;

//! Server-side connection driver for HTTP/2: the connection state machine,
//! the per-request responder task, the request-rewrite hook and the error
//! taxonomy.
//!
//! The engine, the service and the executor are driven from outside: the state
//! machines here decide, for each outcome they are handed, the next state and
//! the next action to perform.

mod error;

pub use error::{Error, ErrorKind};
mod modify;

pub use modify::{rewrite_request, Modify};
mod connection;

pub use connection::{Action, Connection, Event, Stage, State};
mod background;

pub use background::{Background, Outcome, Phase, Task, INTERNAL_ERROR};
pub mod laws;

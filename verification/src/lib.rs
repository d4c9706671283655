//! Runs one SQL script on a list of independently configured PostgreSQL
//! connections and reports one outcome per connection.
//!
//! The library decides and never acts. `classifier` tells from the text of a
//! script whether it must run as one batch inside a transaction. `executor` is
//! the state machine of the work on one connection, `orchestrator` that of a
//! whole invocation; both take the replies of a driver and hand out its next
//! command. `connection` and `report` hold what goes in and what comes out,
//! `project` the records of the project store, `text` the handling of character
//! sequences that the others rest on.

pub mod classifier;
pub mod connection;
pub mod executor;
pub mod orchestrator;
pub mod project;
pub mod report;
pub mod text;

//! Verified core of `ecsr`, an interactive helper that walks the ECS resource
//! hierarchy (cluster, then service, then task, then container) and prints a
//! ready-to-run `execute-command` invocation for the chosen container.
//!
//! The crate holds the parts with real logic, each with a proved contract:
//!
//! * [`arn`] parses fully qualified resource names against anchored templates
//!   and yields short identifiers;
//! * [`lookup`] runs that extraction over the name lists a lookup returns;
//! * [`cascade`] is the four-stage selection flow as a state machine whose
//!   transition function is fully specified;
//! * [`command`] assembles the final command line from the accumulated
//!   selections.
//!
//! Network calls, the credentials file and the interactive prompts are owned
//! by the surrounding binary, which drives the state machine and hands each
//! outcome back as an event.

pub mod arn;
pub mod cascade;
pub mod command;
pub mod errors;
pub mod lookup;

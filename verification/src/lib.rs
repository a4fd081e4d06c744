//! Control logic of a desktop supervisor for one backend service process:
//! the start/stop state machine, the search for helper scripts, the local
//! document stores and the reading of the authorization helper's output.
//!
//! Nothing here touches the file system or starts a process. The caller
//! performs each action that the library asks for and reports what happened.

pub mod command;
pub mod error;
pub mod json;
pub mod oauth;
pub mod resolver;
pub mod store;
pub mod supervisor;
pub mod text;

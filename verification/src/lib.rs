//! Verified core of a repository-migration tool.
//!
//! The tool mirror-clones a source repository, creates a destination
//! repository on the target platform, optionally configures topics and
//! team permissions, and mirror-pushes the history.  Every external
//! command is decided here: `request` resolves the caller's input into a
//! validated `MigrationRequest`, `command` builds the exact argument
//! lists of the external invocations, and `pipeline` is the state
//! machine that orders them and stops at the first failure.  An
//! unverified driver performs the process invocations and feeds each
//! outcome back into the state machine.

pub mod command;
pub mod pipeline;
pub mod request;

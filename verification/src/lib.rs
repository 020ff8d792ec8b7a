//! Launch-interception and bypass orchestration.
//!
//! The library is the decision core of a launcher that is registered as an
//! OS-level debugger hook for a fixed target executable.  Whenever the target
//! is started, the OS runs the launcher instead, handing it the original
//! command line.  The launcher must start the real target through an external
//! injection tool without re-triggering the hook on itself, and must leave the
//! hook and its own lock marker in a clean state on every exit path.
//!
//! Everything here is pure decision logic over plain values: parsing the
//! hook-supplied command line, resolving the injector's path, the reentrancy
//! guard, the shared progress record, the bypass strategies, the privileged
//! helper's state machine, and the orchestrator that composes them.  The
//! surrounding process (registry access, service control, process creation,
//! the presentation surface) performs the actions these decisions call for.

pub mod ascii;
pub mod bypass;
pub mod decimal;
pub mod guard;
pub mod helper;
pub mod hook;
pub mod locator;
pub mod orchestrator;
pub mod progress;
pub mod resolver;
pub mod runner;

//! Decision logic of a NixOS system updater.
//!
//! An upgrade brings the inputs of a system up to date, builds the system,
//! finds out whether the running system can be switched to what was built
//! or the machine has to boot into it, and carries out what the operator
//! then asks for. Everything here decides and computes; nothing here runs a
//! program or touches a file. The host does that: it is told what to do by
//! the values that the library returns, and hands back what it found.
//!
//! - `paths`, `text`: paths as byte strings, their components, joining;
//!   searching in bytes and writing numbers.
//! - `nix::store`: the paths that lie in the store.
//! - `nix`: the result of a build and the profile of the running system.
//! - `nix::command`, `nix::flake`: the command lines of the build tool and
//!   the reading of what it prints.
//! - `daemon`: what an upgrade needs, and the process that carries it out.
//! - `errors`: the ways in which the steps fail, and what is said of them.
//! - `outside`: what is taken on trust from other crates.

pub mod daemon;
pub mod errors;
pub mod nix;
pub mod outside;
pub mod paths;
pub mod text;

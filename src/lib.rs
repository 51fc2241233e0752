//! Core of a hotkey companion daemon for a tiling window manager: the protocol
//! messages it sends and their wire encoding (with the reading side, to check
//! it against), the key codes and hotkey registrations it holds, the
//! compilation of its configuration into setup messages and bindings, the
//! generator for application-specific configuration, and the dispatch loop's
//! decisions.
use vstd::prelude::*;

pub mod config;
pub mod decode;
pub mod dispatch;
pub mod generate;
pub mod keyboard;
pub mod message;

verus! {

} // verus!

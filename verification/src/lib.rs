//! A bridge between a host that drives video-effect plugins through a fixed,
//! untyped interface and plugins written as typed records of parameters.
//!
//! The library is the safe core of that bridge. It holds floating-point
//! numbers by their bit patterns, handles by owned boxes, slots by tagged
//! values and frames by slices, so that every rule of the interface is a
//! property that is proved of the code:
//!
//! - `kinds`: the numbered tags of the interface.
//! - `marshal`: typed parameter values, the host's slot, and the conversion
//!   between the two.
//! - `directive`, `field`, `derive`: the build rule of a plugin type's
//!   parameter table, from the declared fields and their directives.
//! - `store`: the parameters of one instance, reached by index.
//! - `plugin`: what a plugin type implements.
//! - `ffi`: the entry points that a host calls.
//! - `error`: the ways in which the rules of the interface can be broken.

pub mod derive;
pub mod directive;
pub mod error;
pub mod ffi;
pub mod field;
pub mod kinds;
pub mod marshal;
pub mod plugin;
pub mod store;

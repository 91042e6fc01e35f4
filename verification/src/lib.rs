//! Input-event synthesis primitives, verified.
//!
//! The crate models the core of a desktop automation layer: postable input
//! events (keyboard, mouse, scroll wheel) built around a shared event core,
//! a ledger that tracks the retain/release discipline of native object
//! handles, samplers for the cursor location and for on-screen pixel colors,
//! and a handle onto a running application.
//!
//! Every call into the host windowing system is a side effect this crate
//! cannot make for itself. The crate therefore splits each operation into a
//! verified decision — which native request to make, with which arguments,
//! and when to make none at all — and the request value itself, which an
//! unverified shell carries to the operating system. Everything on the
//! decision side is specified and proved here.

use vstd::prelude::*;

pub mod app;
pub mod color;
pub mod event;
pub mod handle;
pub mod keyboard;
pub mod mouse;
pub mod screen;
pub mod wheel;

verus! {

/// Sealing marker: the traits of this crate that bound their implementors
/// to a fixed set of types require it as a supertrait, and only this crate
/// implements it.
pub trait Priv {}

} // verus!

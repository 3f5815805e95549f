//! Launch routing for a single-window desktop application.
//!
//! On every process launch — the first one, a blocked second instance, or an
//! OS-level URL-open notification — the router decides whether a deep-link
//! URL was supplied and, if so, delivers it as a `"deep-link"` event to the
//! window labelled `"main"`. Delivery is best effort: with no such window the
//! URL is silently dropped.
//!
//! The windows are modelled as plain values ([`window::WindowSet`]) handed
//! into the routing functions, so the delivery logic is stated and proved
//! without a GUI runtime; a thin shell wires these functions into the host
//! framework's callbacks.

pub mod router;
pub mod window;

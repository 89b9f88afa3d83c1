//! Verified core of a windowing shell: the lifecycle of one native window,
//! from its creation and the binding of its per-window data, through the
//! attachment of a rendering surface, to the event loop that ends on a close
//! request.

pub mod event_loop;
pub mod platform;
pub mod renderer;
pub mod application;

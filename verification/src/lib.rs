//! A small GUI toolkit core: identifiers, integer geometry, a two-pass layout
//! solver, input events and the per-frame bookkeeping of a window.

pub mod dispatch;
pub mod event;
pub mod fixture;
pub mod geometry;
pub mod gpu;
pub mod imaging;
pub mod laws;
pub mod layout;
pub mod resolved;
pub mod room;
pub mod solver;
pub mod text;
pub mod util;
pub mod widgets;
pub mod window;

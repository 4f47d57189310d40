//! A status agent for sway-style bars: a shared record of what the bar
//! shows, the line protocol it is written in, and the decisions of the
//! loops that keep it current.

pub mod clock;
pub mod emitter;
pub mod focus;
pub mod record;
pub mod render;

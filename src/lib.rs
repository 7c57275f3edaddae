//! Single-instance coordination for a volume / microphone on-screen display.
//!
//! The first invocation becomes the server and keeps the display open; later
//! invocations forward their action over a local channel and exit. The server
//! closes once input has been idle for a fixed grace period.
//!
//! - `action`: the requested operation, its wire byte and its mixer commands.
//! - `audio`: the cached volume and microphone states and their transitions.
//! - `session`: a server's session and the decision of each accept-loop tick.
//! - `channel`: the coordination address, which at most one process holds.
//! - `coordinator`: the role of an invocation and a server's hold on the address.
//! - `render`: what the display shows for a state.
//! - `device`: reading the mixer's report of a device.
pub mod action;
pub mod audio;
pub mod channel;
pub mod coordinator;
pub mod device;
pub mod render;
pub mod session;

//! The engine of a control panel for a laptop's performance, fan, lighting
//! and battery settings: it keeps a status snapshot in step with the device,
//! notices changes made from outside, switches profiles with the power
//! source, probes which performance modes a unit supports, and manages the
//! messages shown to the user.
//!
//! The library performs no input or output and reads no clock. Time comes in
//! as a count of milliseconds; the device is reached through a transcript of
//! exchanges that the host carries out (see [`link`] and [`run`]).

pub mod coordinator;
pub mod device;
pub mod link;
pub mod messaging;
pub mod probe;
pub mod profile;
pub mod reads;
pub mod requests;
pub mod run;
pub mod specs;
pub mod startup;
pub mod state;
pub mod system;
pub mod text;
pub mod tick;
pub mod ui;
pub mod watch;

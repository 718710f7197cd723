//! A work/break interval timer ("pomodoro" style), verified with Verus.
//!
//! The library holds everything the timer decides: the interval state
//! machine, the command protocol with its confirmation gating, the
//! key-to-command mapping, the notification texts, and the layout of the
//! text display. The surrounding binary only moves bytes: it reads keys,
//! writes to the terminal, shows desktop notifications and loads the
//! configuration file, handing this library plain values.

pub mod input;
pub mod logging;
pub mod notify;
pub mod text;
pub mod timer;
pub mod ui;

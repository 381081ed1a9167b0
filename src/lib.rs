//! A typing gate: a countdown and a repetition challenge that withhold a
//! secret until both are met, and the strength rules that a replacement
//! secret has to pass.

pub mod chooser;
pub mod gate;
pub mod secret;
pub mod validator;

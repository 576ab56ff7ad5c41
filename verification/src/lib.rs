//! Key-combination overlay logic: which modifiers are held, how a keystroke
//! is labelled, how the label chip is assembled, and how the system keyboard
//! layout and the active layout group are read.

pub mod texto;
pub mod combo;
pub mod xkb;
pub mod captura;
pub mod json;
pub mod niri;
pub mod localectl;

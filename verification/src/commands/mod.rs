//! Commands that stand outside the plugins: the flashback lookup and the
//! voice commands.
pub mod flashback;
pub mod voice;

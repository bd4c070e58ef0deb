//! Frame-accurate move-cancellation rules for a fighting-game character
//! controller.
//!
//! Every function here is a decision over a snapshot of one fighter's
//! registers. The caller reads the registers from the engine, asks the
//! library what to do, and carries out what it is told: a status
//! transition, a register write, a hand-over to one of the engine's own
//! cancel helpers.

pub mod fighter;
pub mod window;
pub mod direction;
pub mod usage;
pub mod predicates;
pub mod dispatch;
pub mod status;
pub mod appeal;
pub mod effects;

//! Run synchronisation and split decisions for a Hollow Knight: Silksong
//! auto splitter.
//!
//! The library is the decision engine only: it receives snapshots of the
//! game's memory fields and observations of the host timer as plain values,
//! and answers with the commands the host timer should carry out.

pub mod text;
pub mod timer;
pub mod game;
pub mod tally;
pub mod scenes;
pub mod splits;
pub mod load;
pub mod host;
pub mod settings;
pub mod run;

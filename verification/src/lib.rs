//! Local inter-process communication: endpoint names, listener lifecycle and peer credentials.

pub mod credentials;
pub mod listener;
pub mod name;
pub mod wide;

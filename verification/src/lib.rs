//! Core logic of a single-instance document viewer: heading recognition,
//! sectioning of large documents, the shared document record, the watch
//! controller and the hand-off between launches.

pub mod cli;
pub mod document;
pub mod heading;
pub mod lines;
pub mod locations;
pub mod paths;
pub mod rendezvous;
pub mod sections;
pub mod settings;
pub mod text;
pub mod watch;

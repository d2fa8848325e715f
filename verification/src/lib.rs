//! Service registry and staged-launch planner for a local development
//! environment: maps each known internal service ("nub") to its canonical
//! key, filesystem location and peer-URL configuration, and lays out the
//! deterministic order in which requested (layer, service) pairs are
//! brought up.

pub mod laws;
pub mod orchestrator;
pub mod registry;

pub use registry::Directory;
pub use registry::Nub;
pub use registry::ProgramStatus;

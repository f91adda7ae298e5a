//! Peer protocol flow router: demultiplexes a typed wire-message stream onto
//! per-purpose channels, one per protocol flow, with a catch-all drain for
//! every tag that no flow claims, and a single-slot handoff channel that
//! coordinates the block-relay flow with the initial-block-download flow.

pub mod drain;
pub mod envelope;
pub mod flow;
pub mod handoff;
pub mod registrar;
pub mod registry;
pub mod tag;

pub use registrar::register;
pub use tag::TypeTag;

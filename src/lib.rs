//! Fixed-capacity queue over caller-supplied storage, and the advisory
//! exclusion flag that guards its structural mutations.
pub mod lock;
pub mod queue;
pub mod laws;

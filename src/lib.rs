//! A static aliasing checker: given the events of one scope (bindings declared,
//! references created, references used), it decides whether every binding keeps
//! to the exclusivity rule, one exclusive reference or any number of shared ones,
//! with a reference live from its creation to its last use.
pub mod checker;
pub mod laws;
pub mod scope;
pub mod wrapper;

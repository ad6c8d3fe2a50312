//! Semantic atoms, triples and the tables that store them.

pub mod atom;
pub mod store;
pub mod scie;
pub mod navigator;
pub mod selftest;

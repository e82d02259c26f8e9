//! Synchronisation engine between transit feeds and a wikibase-style graph store.
//!
//! The library holds the decisions: how claims are built, how store answers are
//! read, how schema elements are rediscovered and how feed entities are matched,
//! created and linked. Network, JSON and feed-file plumbing stand outside it.
pub mod bridge;
pub mod ids;
pub mod claims;
pub mod text;
pub mod api;
pub mod known_entities;
pub mod sparql;
pub mod writer;
pub mod importer;
pub mod populate;
pub mod cli;
pub mod entity;
pub mod discovery;

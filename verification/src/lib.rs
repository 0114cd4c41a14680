//! A local, in-process reactive state container.
//!
//! A single mutable slice of application state (a store) can only change by
//! dispatching typed actions through a pure transformation (a reducer); after
//! every successful, state-changing dispatch, registered observers
//! (listeners) are notified in registration order.
//!
//! The `Application` composition root owns all registered store managers and
//! routes each action, by its kind, to exactly one store's reducer. Every
//! public operation carries a contract: atomicity on reducer failure, no-op
//! suppression, routing isolation, listener isolation, snapshot-based
//! notification, and rejection of duplicate registrations are all stated in
//! `ensures` clauses and proved.

pub mod action;
pub mod application;
pub mod error;
pub mod event;
pub mod globalstore;
pub mod http;
pub mod laws;
pub mod platform;
pub mod reducer;
pub mod registry;
pub mod service;
pub mod store;
pub mod storemanager;
pub mod utils;

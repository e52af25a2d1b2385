//! An in-memory ticket tracker: validated value objects, status parsing,
//! a ticket store with create / read / partial-update operations, and the
//! request-level decisions of the service built on top of it.

pub mod validation;
pub mod order;
pub mod status;
pub mod ticket;
pub mod model;
pub mod store;
pub mod handler;

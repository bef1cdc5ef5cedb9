//! Order fulfilment and expiry alerts for a small pharmacy.
//!
//! The library decides; it sends nothing and stores nothing. An order is
//! placed against the inventory and the ledger held in a [`store::Pharmacy`],
//! the expiry scan picks the medicines that are due, [`notify`] writes their
//! alerts and counts how the sends went, and [`scheduler`] tells whether a
//! tick of the timer starts a scan. Dates are those of [`date`], which
//! counts days and writes dates with the `chrono` crate.

pub mod date;
pub mod db;
pub mod dialogue;
pub mod expiry;
pub mod i18n;
pub mod inventory;
pub mod models;
pub mod moderation;
pub mod notify;
pub mod order;
pub mod scheduler;
pub mod seed;
pub mod selector;
pub mod store;
pub mod text;
pub mod utils;

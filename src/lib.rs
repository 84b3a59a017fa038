//! Persistence core of a risk-management record keeper: schema reconciliation
//! against a declarative manifest, the lifecycle of the shared connection-pool
//! slot, the ordered cascade deletes for root entities, and the statements that
//! the repository operations run against the relational store.

pub mod cascade;
pub mod checks;
pub mod config;
pub mod forms;
pub mod ids;
pub mod pool;
pub mod rating;
pub mod records;
pub mod repository;
pub mod requests;
pub mod schema;

pub use rating::calculate_risk;

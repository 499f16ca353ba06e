//! What the operations of the library are for: relations between what they are given and what they
//! give back.
pub mod actions;
pub mod basics;
pub mod content;
pub mod defaults;
pub mod intervals;
pub mod leadership;
pub mod limits;
pub mod metrics;
pub mod plain_actions;
pub mod queue;
pub mod repos;
pub mod runs;
pub mod schedules;
pub mod secrets;
pub mod settings;
pub mod statuses;
pub mod tasks;
pub mod triggers;
pub mod validation;
pub mod webhooks;

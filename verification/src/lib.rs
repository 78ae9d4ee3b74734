//! Bounded background task execution: records, stores, scheduling, resource
//! accounting and the decisions of the task service.

pub mod engine;
pub mod event;
pub mod handler;
pub mod keyed;
pub mod lists;
pub mod model;
pub mod scheduling;
pub mod service;
pub mod spi;
pub mod store;
pub mod text;
pub mod text_laws;
pub mod totals;

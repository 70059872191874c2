//! Coordination logic of a small distributed build service: a logical clock,
//! round-robin dispatch of build tasks to workers, the decisions taken on a
//! worker's reply, the worker's task processing and the client's request
//! construction.

pub mod clock;
pub mod dispatch;
pub mod text;
pub mod worker;
pub mod models;
pub mod handlers;
pub mod client;
pub mod discovery;

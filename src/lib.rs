//! A client library for a task list kept in a hosted database: the task
//! record, its enumerations, and the mapping between records and the
//! service's request and response bodies.

pub mod text;
pub mod task;
pub mod request;
pub mod client;
pub mod page;
pub mod response;
pub mod filter;
pub mod order;

pub use task::{Task, TaskError, TaskPriority, TaskStatus};
pub use client::NotionClient;
pub use request::{ApiRequest, Config, HttpMethod};

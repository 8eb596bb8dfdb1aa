//! Helpers for launcher script filters: items and responses, and
//! background jobs that refresh data without holding up an invocation.
//!
//! Every decision is made here and proved against its contract; the
//! caller reads files, the process table and the environment, and carries
//! out what these functions decide.

pub mod arg;
pub mod background_job;
pub mod chars;
pub mod clipboard;
pub mod config;
pub mod error;
pub mod icon;
pub mod internal_handlers;
pub mod item;
pub mod modifiers;
pub mod paths;
pub mod response;
pub mod runnable;
pub mod shell;
pub mod sort_and_filter;
pub mod string_map;
pub mod text;
pub mod url_item;
pub mod workflow;

pub use arg::Arg;
pub use error::{Error, Result, WorkflowError};
pub use icon::Icon;
pub use internal_handlers::handle_workflow_dir_open;
pub use item::Item;
pub use modifiers::{Key, Modifier};
pub use runnable::{execute, Runnable};
pub use response::{CacheSettings, Response};
pub use text::Text;
pub use url_item::URLItem;
pub use workflow::Workflow;

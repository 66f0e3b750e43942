//! A Markdown viewer's core: rendering Markdown to a full HTML document,
//! ordering directory listings, coalescing file-change notifications and
//! deciding what the viewer does in answer to each user or watcher event.

pub mod cli;
pub mod error;
pub mod listing;
pub mod markdown;
pub mod page;
pub mod paths;
pub mod sidebar;
pub mod text;
pub mod viewer;
pub mod watch;

//! Reading-list library: the domain model, the repository and search seams,
//! and the command handlers of the `book` tool.

pub mod cli;
pub mod error;
pub mod model;
pub mod repository;
pub mod search;

//! The core of an interactive command shell: a line of input is edited key by
//! key, split into a request, resolved to an operation through an alias
//! table, and handed to an executor that runs one request at a time.

pub mod cli;
pub mod component;
pub mod editor;
pub mod executor;
pub mod mapping;
pub mod node;
pub mod operation;
pub mod program;
pub mod renderer;
pub mod request;
pub mod response;
pub mod text;

pub mod json;
pub mod path;
pub mod filter;
pub mod project;
pub mod render;
pub mod pipeline;
pub mod shutdown;
pub mod args;

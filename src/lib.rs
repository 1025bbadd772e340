//! Markdown-to-PDF document pipeline: the style configuration, title-header
//! extraction, synthesis of the complete HTML document, the path and URL rules
//! of a render job, and the decisions of a job that has a headless browser
//! print the document.

pub mod config;
pub mod header;
pub mod paths;
pub mod pipeline;
pub mod render;
pub mod template;
pub mod text;

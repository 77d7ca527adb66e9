//! A module-graph editor core: modules and their dependency graph, script
//! generation from the graph, a four-slot block cache, and the decisions of
//! the script and streaming workers.
pub mod block_cache;
pub mod config;
pub mod editor;
pub mod graph;
pub mod json;
pub mod modules;
pub mod tasks;
pub mod text;
pub mod worker;

pub use config::{EditorConfig, EditorViews, Endpoint, Spkg, UserConfig};
pub use editor::EditorState;

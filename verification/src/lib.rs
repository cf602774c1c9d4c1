//! Renders Rust syntax trees and cleaned documentation trees as text, and
//! collects the items of a crate into a documentation tree.

pub mod text;
pub mod ast;
pub mod utils;
pub mod clean;
pub mod render;
pub mod extract;
pub mod doctree;
pub mod context;
pub mod visitor;
pub mod walk_laws;
pub mod import_laws;
pub mod walk_check;
pub mod item_laws;
pub mod listing_laws;

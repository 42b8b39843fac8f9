//! A branching storybook: the story graph, the presentation lifecycle that
//! walks it, and the text helpers that prepare a beat for display.

pub mod book;
pub mod book_content;
pub mod graph;
pub mod resources;
pub mod utils;

//! A Markdown viewer's document pipeline: heading anchors, table of contents,
//! section splitting, local image resolution and live-reload coordination.

pub mod text;
pub mod slug;
pub mod sections;
pub mod pattern;
pub mod render;
pub mod markdown;
pub mod toc;
pub mod images;
pub mod reload;
pub mod webview;
pub mod cli;

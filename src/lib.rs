//! Live-preview rendering for a markdown editor.
//!
//! Markdown text is parsed into a stream of structural events; a style
//! tracker follows the nesting of emphasis, strong, heading and code-block
//! scopes, and a renderer turns each text event into a styled run and each
//! break or rule into a layout directive.
pub mod events;
pub mod style;
pub mod tracker;
pub mod render;
pub mod laws;
pub mod markdown;
pub mod editor;

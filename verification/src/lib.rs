//! A signal-free Markdown renderer core.
//!
//! The library consumes a flat sequence of parse events (as an external
//! CommonMark tokenizer produces them) and reconstructs a properly nested
//! markup tree, applying a configurable styling policy. The tokenizer itself
//! and the embedding of the resulting tree into a UI framework are external
//! collaborators and stay outside this crate's verified core.

pub mod components;
pub mod events;
pub mod markup;
pub mod laws;
pub mod numeral;
pub mod render_spec;
pub mod renderer;

pub use components::{
    get_code_theme_classes, get_enhanced_prose_classes, CodeBlockTheme, MarkdownClasses,
    MarkdownOptions,
};
pub use events::{CodeBlockKind, ElementKind, Event, HeadingLevel};
pub use markup::{Attribute, MarkupNode};
pub use renderer::{MarkdownRenderer, RenderError};

//! Conversion of a plain-text novel into the pages of an EPUB book.
//!
//! The crate holds the book model (chapters, sub-chapters, their ids and
//! text), the rules that sort the lines of a text file into headings and
//! body text, and the layout of the files that make up the book. Reading
//! the text file, rendering the pages and packing the archive are left to
//! the program that uses it.
pub mod book;
pub mod chapter;
pub mod config;
pub mod convert;
pub mod layout;
pub mod pattern;
pub mod template_type;
pub mod text;

pub use book::BookInfo;
pub use chapter::{ChapterContent, ChapterInfo, ChapterMeta, MainChapter};
pub use config::Config;
pub use convert::{Conversion, Output};
pub use layout::{prepare_book, render_content, run_kindlegen, PreparePlan, RenderJob};
pub use pattern::{LineKind, LineRules, LinePattern, PatternError};
pub use template_type::TemplateType;
pub use text::hash_string;

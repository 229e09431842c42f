//! Composable markup components: attribute and content values, templates with
//! default bodies, instances that lay an overlay over a template, the merge
//! rules that combine them, and a renderer that turns an instance into text.
//!
//! Attribute maps and slots keep the order in which names first arrived, and
//! sets keep their members in that order too, so rendering is deterministic.
pub mod attr;
pub mod keyed;
pub mod tree;
pub mod merge;
pub mod height;
pub mod render;
pub mod template;
pub mod builder;
pub mod laws;

pub use attr::{AttrValue, merge_attr_value, merge_attrs};
pub use merge::{merge_body, merge_content, merge_part};
pub use render::{format_attr, format_item};
pub use template::TagError;
pub use tree::{Body, Content, ContentPart, Item, Wrapper, WrapperBody};

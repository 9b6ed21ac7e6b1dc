//! Turns a markdown document — an optional YAML frontmatter block followed by
//! a free-text body — into a fully resolved command descriptor: a rendered
//! message plus two lists of file paths (read-only context files and editable
//! files).  Frontmatter is split from the body on dash-delimited boundary
//! lines, the declared argument names and path templates are decoded from the
//! frontmatter, caller-supplied positional values are bound into a render
//! context, and the body and every path template are rendered through a
//! template engine augmented with string-case-conversion filters.

pub mod aider_command;
pub mod command_template;
pub mod errors;
pub mod filters;
pub mod frontmatter;
pub mod markdown_doc;
pub mod render;
pub mod template_syntax;
pub mod text;

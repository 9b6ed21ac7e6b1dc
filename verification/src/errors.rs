//! The errors the pipeline can surface: frontmatter that does not parse,
//! a declared argument with no value supplied, and a template that fails to
//! render.

use vstd::prelude::*;

verus! {

/// Why turning a document into a command descriptor failed.
#[derive(Debug)]
pub enum TemplateError {
    /// The frontmatter block is present but is not well-formed structured
    /// data.  Carries the parser's message.
    FrontmatterParse(String),
    /// Fewer positional values were supplied than argument names declared.
    /// Carries the first declared argument name with no value.
    MissingArgument(String),
    /// The body or a path template failed to render.  Carries the engine's
    /// message.
    Render(String),
}

/// The message that reports a missing argument by name.
pub open spec fn missing_argument_message(name: Seq<char>) -> Seq<char> {
    "Missing expected argument \""@ + name + "\"."@
}

impl TemplateError {
    /// A human-readable account of the error.  Parse and render errors
    /// surface the underlying engine message verbatim; a missing argument
    /// names the first declared argument with no value.
    pub fn describe(&self) -> (r: String)
        ensures
            match self {
                TemplateError::FrontmatterParse(m) => r@ == m@,
                TemplateError::MissingArgument(name) => r@ == missing_argument_message(name@),
                TemplateError::Render(m) => r@ == m@,
            },
    {
        match self {
            TemplateError::FrontmatterParse(m) => m.clone(),
            TemplateError::MissingArgument(name) => {
                let mut r = String::from_str("Missing expected argument \"");
                r.append(name.as_str());
                r.append("\".");
                r
            },
            TemplateError::Render(m) => m.clone(),
        }
    }
}

} // verus!

//! The fully resolved command descriptor: a rendered message plus the two
//! rendered path lists.

use vstd::prelude::*;

use crate::text::views_of;

verus! {

/// A resolved command: the message and the file paths handed to the
/// external program.
#[derive(Debug)]
pub struct AiderCommand {
    pub message: String,
    /// File paths which will be passed as read-only (using `--read`)
    pub read_only: Vec<String>,
    /// File paths to be edited (passed using `--file`)
    pub edit: Vec<String>,
}

/// The mathematical content of an [`AiderCommand`].
pub struct CommandDescriptorView {
    pub message: Seq<char>,
    pub read_only: Seq<Seq<char>>,
    pub edit: Seq<Seq<char>>,
}

impl View for AiderCommand {
    type V = CommandDescriptorView;

    open spec fn view(&self) -> CommandDescriptorView {
        CommandDescriptorView {
            message: self.message@,
            read_only: views_of(self.read_only@),
            edit: views_of(self.edit@),
        }
    }
}

impl AiderCommand {
    /// A command holding the given message and no file paths.
    pub fn message(message: String) -> (r: Self)
        ensures
            r@.message == message@,
            r@.read_only == Seq::<Seq<char>>::empty(),
            r@.edit == Seq::<Seq<char>>::empty(),
    {
        let r = AiderCommand { message, read_only: Vec::new(), edit: Vec::new() };
        proof {
            assert(views_of(Seq::<String>::empty()) =~= Seq::<Seq<char>>::empty());
        }
        r
    }
}

} // verus!

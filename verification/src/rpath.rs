//! The options of the tool that rewrites the search paths of one binary.
use vstd::prelude::*;
use crate::bundlers::mac::{
    edit_steps, file_edits, is_first_nameless, MacBundler, ObjectFile,
};
use crate::error::Error;
use crate::steps::{plan, Step};

verus! {

/// What the tool is asked: the binary, and the directory beside the executable
/// in which its libraries are to be looked for.
#[derive(Clone, Debug, PartialEq, Eq)]
pub struct Options {
    pub lib: String,
    pub path: Option<String>,
}

impl Options {
    /// The directory beside the executable; the directory of the executable
    /// itself where none is given.
    pub open spec fn subdirectory(self) -> Seq<char> {
        match self.path {
            Some(path) => path@,
            None => Seq::empty(),
        }
    }

    /// The steps that rewrite the binary, whose file is `file`.
    pub fn steps(&self, file: &ObjectFile) -> (steps: Result<Vec<Step>, Error>)
        ensures
            match steps {
                Ok(steps) => {
                    &&& file_edits(*file, self.subdirectory()) is Some
                    &&& plan(steps@) == edit_steps(
                        file_edits(*file, self.subdirectory())->0,
                        self.lib@,
                    )
                },
                Err(error) => {
                    &&& file_edits(*file, self.subdirectory()) is None
                    &&& file.commands() is Some
                    &&& error matches Error::NoFileName { path: nameless }
                    &&& exists|at: int|
                        #![trigger file.commands()->0[at]]
                        is_first_nameless(file.commands()->0, at) && nameless@
                            == file.commands()->0[at].1
                },
            },
    {
        proof {
            reveal_strlit("");
            assert(""@ =~= Seq::<char>::empty());
        }
        match &self.path {
            Some(path) => MacBundler::set_rpath_to(file, self.lib.as_str(), path.as_str()),
            None => MacBundler::set_rpath_to(file, self.lib.as_str(), ""),
        }
    }
}

} // verus!

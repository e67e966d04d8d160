//! Commands for outside tools, as values: what to start, and with which
//! arguments. Nothing here starts a process.
use vstd::prelude::*;
use crate::text::{owned, views};

verus! {

/// A program and its arguments.
#[derive(Clone, Debug, PartialEq, Eq)]
pub struct CommandLine {
    pub program: String,
    pub args: Vec<String>,
}

impl CommandLine {
    /// The program followed by its arguments.
    pub open spec fn words(self) -> Seq<Seq<char>> {
        seq![self.program@] + views(self.args@)
    }

    /// The command that starts `program` without arguments.
    pub fn new(program: &str) -> (command: CommandLine)
        ensures
            command.words() == seq![program@],
    {
        let command = CommandLine { program: owned(program), args: Vec::new() };
        assert(command.words() =~= seq![program@]);
        command
    }

    /// One more argument at the end.
    pub fn arg(&mut self, argument: &str)
        ensures
            final(self).words() == old(self).words().push(argument@),
    {
        let ghost before = self.args@;
        self.args.push(owned(argument));
        proof {
            assert(views(self.args@) =~= views(before).push(argument@));
            assert(self.words() =~= old(self).words().push(argument@));
        }
    }

    /// More arguments at the end, in order.
    pub fn args(&mut self, arguments: &Vec<String>)
        ensures
            final(self).words() == old(self).words() + views(arguments@),
    {
        let mut i: usize = 0;
        while i < arguments.len()
            invariant
                i <= arguments.len(),
                self.words() == old(self).words() + views(arguments@.subrange(0, i as int)),
            decreases arguments.len() - i,
        {
            let ghost before = self.words();
            self.arg(arguments[i].as_str());
            proof {
                assert(views(arguments@.subrange(0, i + 1)) =~= views(
                    arguments@.subrange(0, i as int),
                ).push(arguments@[i as int]@));
                assert(self.words() =~= old(self).words() + views(
                    arguments@.subrange(0, i + 1),
                ));
            }
            i = i + 1;
        }
        assert(arguments@.subrange(0, arguments.len() as int) =~= arguments@);
    }
}

} // verus!

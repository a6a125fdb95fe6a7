//! A command to run in a pseudo-terminal: the program, its arguments and the
//! number that identifies the process it starts.
use vstd::prelude::*;

use crate::text::{owned, string_views};

verus! {

/// What a command holds.
pub struct CommandView {
    pub program: Seq<char>,
    pub args: Seq<Seq<char>>,
    pub process_id: u8,
}

/// A command, built up argument by argument before it is spawned.
pub struct ConsoleCommand {
    program: String,
    args: Vec<String>,
    process_id: u8,
}

impl View for ConsoleCommand {
    type V = CommandView;

    closed spec fn view(&self) -> CommandView {
        CommandView { program: self.program@, args: string_views(self.args@), process_id: self.process_id }
    }
}

impl ConsoleCommand {
    /// A command that runs `program` with no arguments, as process number 0.
    pub fn new(program: &str) -> (r: ConsoleCommand)
        ensures
            r@ == (CommandView { program: program@, args: Seq::empty(), process_id: 0 }),
    {
        let r = ConsoleCommand { program: owned(program), args: Vec::new(), process_id: 0 };
        assert(string_views(r.args@) =~= Seq::<Seq<char>>::empty());
        r
    }

    /// Adds `arg` after the arguments so far.
    pub fn arg(&mut self, arg: &str)
        ensures
            final(self)@ == (CommandView {
                program: old(self)@.program,
                args: old(self)@.args.push(arg@),
                process_id: old(self)@.process_id,
            }),
    {
        let ghost before = self.args@;
        self.args.push(owned(arg));
        assert(string_views(self.args@) =~= string_views(before).push(arg@));
    }

    /// Sets the number that identifies the process.
    pub fn with_process_id(&mut self, process_id: u8)
        ensures
            final(self)@ == (CommandView {
                program: old(self)@.program,
                args: old(self)@.args,
                process_id,
            }),
    {
        self.process_id = process_id;
    }

    /// The program to run.
    pub fn program(&self) -> (r: &String)
        ensures
            r@ == self@.program,
    {
        &self.program
    }

    /// The arguments, in order.
    pub fn args(&self) -> (r: &Vec<String>)
        ensures
            string_views(r@) == self@.args,
    {
        &self.args
    }

    /// The number that identifies the process.
    pub fn process_id(&self) -> (r: u8)
        ensures
            r == self@.process_id,
    {
        self.process_id
    }
}

} // verus!

//! A process invocation as plain values: a program and its arguments.
use vstd::prelude::*;

verus! {

/// A command line, built here and run by the caller.
#[derive(Debug, Clone)]
pub struct CommandLine {
    pub program: String,
    pub args: Vec<String>,
}

/// A command line as character sequences.
pub struct CommandView {
    pub program: Seq<char>,
    pub args: Seq<Seq<char>>,
}

impl View for CommandLine {
    type V = CommandView;

    open spec fn view(&self) -> CommandView {
        CommandView { program: self.program@, args: self.args@.map_values(|a: String| a@) }
    }
}

impl CommandLine {
    /// A command line for `program` with no arguments.
    pub fn new(program: &str) -> (r: CommandLine)
        ensures
            r@.program == program@,
            r@.args == Seq::<Seq<char>>::empty(),
    {
        let r = CommandLine { program: String::from_str(program), args: Vec::new() };
        assert(r@.args =~= Seq::<Seq<char>>::empty());
        r
    }

    /// Appends one argument.
    pub fn arg(&mut self, a: String)
        ensures
            final(self)@.program == old(self)@.program,
            final(self)@.args == old(self)@.args.push(a@),
    {
        let ghost a_view = a@;
        self.args.push(a);
        assert(self@.args =~= old(self)@.args.push(a_view));
    }

    /// Appends one argument given as a string slice.
    pub fn arg_str(&mut self, a: &str)
        ensures
            final(self)@.program == old(self)@.program,
            final(self)@.args == old(self)@.args.push(a@),
    {
        self.arg(String::from_str(a));
    }
}

} // verus!

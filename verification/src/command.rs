use vstd::prelude::*;

verus! {

/// A description of one external program invocation: the program name and the
/// exact, ordered argument list. Running the program is the caller's
/// business; this type only records what would be run, so that every argument
/// sequence the library produces can be pinned down in a contract.
#[derive(Debug)]
pub struct Command {
    program: String,
    args: Vec<String>,
}

/// The mathematical content of a [`Command`]: the program name and the
/// argument list, order included.
pub struct CommandView {
    pub program: Seq<char>,
    pub args: Seq<Seq<char>>,
}

impl View for Command {
    type V = CommandView;

    closed spec fn view(&self) -> CommandView {
        CommandView { program: self.program@, args: self.args.deep_view() }
    }
}

impl Command {
    pub fn new(program: &str) -> (c: Command)
        ensures
            c@.program == program@,
            c@.args == Seq::<Seq<char>>::empty(),
    {
        let c = Command { program: program.to_owned(), args: Vec::new() };
        proof {
            assert(c.args.deep_view() =~= Seq::<Seq<char>>::empty());
        }
        c
    }

    /// Append one argument.
    pub fn arg(&mut self, arg: String)
        ensures
            final(self)@.program == old(self)@.program,
            final(self)@.args == old(self)@.args.push(arg@),
    {
        let ghost before = self.args.deep_view();
        let ghost a = arg@;
        self.args.push(arg);
        proof {
            assert(self.args.deep_view() =~= before.push(a));
        }
    }

    /// Append two arguments, the first before the second.
    pub fn arg_pair(&mut self, first: String, second: String)
        ensures
            final(self)@.program == old(self)@.program,
            final(self)@.args == old(self)@.args.push(first@).push(second@),
    {
        self.arg(first);
        self.arg(second);
    }

    pub fn get_program(&self) -> (p: &String)
        ensures
            p@ == self@.program,
    {
        &self.program
    }

    /// A copy of the argument list, in order.
    pub fn get_args(&self) -> (a: Vec<String>)
        ensures
            a.deep_view() == self@.args,
    {
        let mut out: Vec<String> = Vec::new();
        let mut i: usize = 0;
        while i < self.args.len()
            invariant
                i <= self.args.len(),
                out.deep_view() =~= self.args.deep_view().take(i as int),
            decreases self.args.len() - i,
        {
            let ghost prev = out.deep_view();
            let x = self.args[i].clone();
            proof {
                assert(x == self.args@[i as int]);
                assert(x.deep_view() == self.args.deep_view()[i as int]);
            }
            out.push(x);
            i = i + 1;
            proof {
                assert(out.deep_view() =~= prev.push(self.args.deep_view()[i - 1]));
                assert(out.deep_view() =~= self.args.deep_view().take(i as int));
            }
        }
        proof {
            assert(self.args.deep_view().take(self.args.len() as int) =~= self.args.deep_view());
        }
        out
    }
}

} // verus!

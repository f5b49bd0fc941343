//! How the companion executable is invoked.

use vstd::prelude::*;

verus! {

/// The logical identifier of the companion executable inside the
/// application bundle.
pub open spec fn program_id() -> Seq<char> {
    "binaries/quack-backend"@
}

/// The flag that introduces the data directory.
pub open spec fn data_dir_flag() -> Seq<char> {
    "--data-dir"@
}

/// The argument list for a data directory: the flag, then the path as it
/// stands.
pub open spec fn invocation_args(path: Seq<char>) -> Seq<Seq<char>> {
    seq![data_dir_flag(), path]
}

/// The texts held by a sequence of strings, in order.
pub open spec fn texts(items: Seq<String>) -> Seq<Seq<char>> {
    Seq::new(items.len(), |i: int| items[i]@)
}

/// A launch command: which bundled executable to run, and with what
/// arguments.
#[derive(Debug, Clone, PartialEq, Eq)]
pub struct Invocation {
    pub program: String,
    pub args: Vec<String>,
}

impl View for Invocation {
    type V = (Seq<char>, Seq<Seq<char>>);

    open spec fn view(&self) -> (Seq<char>, Seq<Seq<char>>) {
        (self.program@, texts(self.args@))
    }
}

impl Invocation {
    /// The command that starts the companion process on the given data
    /// directory. The path is passed through unchanged, whatever
    /// characters it holds.
    pub fn for_data_dir(path: &str) -> (invocation: Invocation)
        ensures
            invocation@ == (program_id(), invocation_args(path@)),
            invocation.args@.len() == 2,
            invocation.args@[0]@ == data_dir_flag(),
            invocation.args@[1]@ == path@,
    {
        let mut args: Vec<String> = Vec::new();
        args.push("--data-dir".to_owned());
        args.push(path.to_owned());
        let program = "binaries/quack-backend".to_owned();
        proof {
            assert(texts(args@) =~= invocation_args(path@));
        }
        Invocation { program, args }
    }
}

} // verus!

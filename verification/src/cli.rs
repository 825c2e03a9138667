use vstd::prelude::*;

verus! {

/// The message with which the command line refuses to run inside Ruby.
pub open spec fn cli_unavailable() -> Seq<char> {
    "CLI not available in Ruby gem."@
}

/// The command-line entry point: inside the Ruby gem it never runs, and
/// refuses whatever arguments it is given.
pub fn run_cli(args: Vec<String>) -> (r: Result<(), String>)
    ensures
        r matches Err(m) && m@ == cli_unavailable(),
{
    Err("CLI not available in Ruby gem.".to_owned())
}

} // verus!

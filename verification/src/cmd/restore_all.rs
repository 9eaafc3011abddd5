//! `restore-all`: restores every saved machine state.

use vstd::prelude::*;
use crate::text::owned;
use crate::tools::CommandLine;

verus! {

/// The arguments of `restore-all`.
#[derive(Debug)]
pub struct SubCmdRestoreAll {
    /// Print the commands instead of running them.
    pub dryrun: bool,
}

impl SubCmdRestoreAll {
    /// The command that restores the machine state saved in a file.
    pub fn restore_command(&self, path: &str) -> (r: CommandLine)
        ensures
            r@ == ("virsh"@, seq!["restore"@, path@]),
    {
        let r = CommandLine { program: owned("virsh"), args: vec![owned("restore"), owned(path)] };
        assert(r.args.deep_view() =~= seq!["restore"@, path@]);
        r
    }
}

} // verus!

//! `save-all`: saves the state of every running machine.

use vstd::prelude::*;
use crate::text::{owned, nonempty_lines, nonempty_lines_of};
use crate::tools::{CommandLine, commands_view, lemma_commands_view_push};
use crate::cmd::create::{path_join, join_path};

verus! {

/// The arguments of `save-all`.
#[derive(Debug)]
pub struct SubCmdSaveAll {
    /// Print the commands instead of running them.
    pub dryrun: bool,
}

/// The command that lists the running machines.
pub fn list_running_command() -> (r: CommandLine)
    ensures
        r@ == ("virsh"@, seq!["list"@, "--name"@]),
{
    let r = CommandLine { program: owned("virsh"), args: vec![owned("list"), owned("--name")] };
    assert(r.args.deep_view() =~= seq!["list"@, "--name"@]);
    r
}

/// For each machine in order, the command that saves it to a file of its
/// name in the save directory.
pub open spec fn save_commands_spec(vms: Seq<Seq<char>>, save_dir: Seq<char>) -> Seq<(Seq<char>, Seq<Seq<char>>)>
    decreases vms.len(),
{
    if vms.len() == 0 {
        Seq::empty()
    } else {
        save_commands_spec(vms.drop_last(), save_dir).push(
            ("virsh"@, seq!["save"@, vms.last(), path_join(save_dir, vms.last())]),
        )
    }
}

impl SubCmdSaveAll {
    /// The save commands for the running machines that `virsh list --name`
    /// printed (one per non-empty line).
    pub fn save_commands(&self, virsh_output: &str, save_dir: &str) -> (r: Vec<CommandLine>)
        ensures
            commands_view(r@) == save_commands_spec(nonempty_lines(virsh_output@), save_dir@),
    {
        let running = nonempty_lines_of(virsh_output);
        let ghost vms = running.deep_view();
        let mut cmds: Vec<CommandLine> = Vec::new();
        let mut i: usize = 0;
        assert(vms.take(0) =~= Seq::<Seq<char>>::empty());
        assert(commands_view(cmds@) =~= Seq::<(Seq<char>, Seq<Seq<char>>)>::empty());
        while i < running.len()
            invariant
                vms == running.deep_view(),
                i <= running.len(),
                commands_view(cmds@) == save_commands_spec(vms.take(i as int), save_dir@),
            decreases running.len() - i,
        {
            let vm = &running[i];
            let path = join_path(save_dir, vm.as_str());
            let c = CommandLine { program: owned("virsh"), args: vec![owned("save"), vm.clone(), path] };
            assert(c.args.deep_view() =~= seq!["save"@, vm@, path_join(save_dir@, vm@)]);
            let ghost before = cmds@;
            cmds.push(c);
            proof {
                lemma_commands_view_push(before, c);
                assert(vms.take(i + 1).drop_last() =~= vms.take(i as int));
                assert(vms.take(i + 1).last() == vm@);
            }
            i = i + 1;
        }
        assert(vms.take(running.len() as int) =~= vms);
        cmds
    }
}

} // verus!

use vstd::prelude::*;

use crate::command::Command;

verus! {

/// Build the cluster tool invocation that lists the available cluster
/// contexts. The caller runs it and streams its output through.
pub fn list_clusters() -> (c: Command)
    ensures
        c@.program == "kubectl"@,
        c@.args == seq!["config"@, "get-contexts"@],
{
    let mut command = Command::new("kubectl");
    command.arg_pair("config".to_owned(), "get-contexts".to_owned());
    proof {
        assert(command@.args =~= seq!["config"@, "get-contexts"@]);
    }
    command
}

/// Build the cluster tool invocation that makes the named cluster context
/// the active one. The caller runs it and streams its output through.
pub fn set_cluster(name: &str) -> (c: Command)
    ensures
        c@.program == "kubectl"@,
        c@.args == seq!["config"@, "use-context"@, name@],
{
    let mut command = Command::new("kubectl");
    command.arg_pair("config".to_owned(), "use-context".to_owned());
    command.arg(name.to_owned());
    proof {
        assert(command@.args =~= seq!["config"@, "use-context"@, name@]);
    }
    command
}

} // verus!

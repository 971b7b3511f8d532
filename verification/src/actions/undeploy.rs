use vstd::prelude::*;

use crate::Error;
use crate::command::Command;
use crate::deploy_config::{
    Deployment, RawManifestView, load_error, loaded_deployment, manifest_loads, manifest_of,
    undeployment_args,
};
use super::deploy::ActionPlan;

verus! {

/// Build the chart tool invocation that uninstalls the given deployment's
/// release from its namespace.
pub fn create_undeploy(deployment: Deployment) -> (c: Command)
    ensures
        c@.program == "helm"@,
        c@.args == seq!["uninstall"@] + undeployment_args(deployment@),
{
    let mut command = Command::new("helm");
    command.arg("uninstall".to_owned());
    deployment.append_undeployment_information(&mut command);
    proof {
        assert(command@.args =~= seq!["uninstall"@] + undeployment_args(deployment@));
    }
    command
}

/// The exact outcome an undeploy request owes: the manifest's validation
/// error when it does not load, and otherwise a plan holding the uninstall
/// command, gated on confirmation exactly when the skip-confirmation switch is off.
pub open spec fn undeploy_outcome(
    dir: Seq<char>,
    m: RawManifestView,
    skip_confirmation: bool,
    r: Result<ActionPlan, Error>,
) -> bool {
    if !manifest_loads(m) {
        r matches Err(e) && load_error(m, e)
    } else {
        r matches Ok(plan) && plan.needs_confirmation == !skip_confirmation && plan.command@.program
            == "helm"@ && plan.command@.args == seq!["uninstall"@] + undeployment_args(
            loaded_deployment(dir, m),
        )
    }
}

/// Validate the manifest text and produce the uninstall invocation for its
/// release, gated on user confirmation unless the skip-confirmation switch
/// suppresses it.
pub fn undeploy(deploy_file_dir: &str, manifest_text: &str, skip_confirmation: bool) -> (r: Result<
    ActionPlan,
    Error,
>)
    ensures
        undeploy_outcome(deploy_file_dir@, manifest_of(manifest_text@), skip_confirmation, r),
{
    let deployment = match Deployment::new(deploy_file_dir, manifest_text) {
        Ok(d) => d,
        Err(e) => {
            return Err(e);
        },
    };

    Ok(ActionPlan { needs_confirmation: !skip_confirmation, command: create_undeploy(deployment) })
}

} // verus!

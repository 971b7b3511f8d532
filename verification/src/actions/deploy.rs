use vstd::prelude::*;

use crate::Error;
use crate::command::Command;
use crate::deploy_config::{
    Deployment, DeploymentView, RawManifestView, deployment_args, load_error, loaded_deployment,
    manifest_loads, manifest_of,
};
use super::values;

verus! {

/// A gated invocation: the command to run, and whether the user must
/// confirm it first (confirmation is suppressed by the skip-confirmation switch).
pub struct ActionPlan {
    pub needs_confirmation: bool,
    pub command: Command,
}

/// The exact argument list of a real deployment: the install subcommand
/// tokens, the blocking wait flag with its timeout, the values files in
/// their fixed order, and the deployment information.
pub open spec fn deploy_args(
    d: DeploymentView,
    values_default: Seq<char>,
    values_profile: Option<Seq<char>>,
) -> Seq<Seq<char>> {
    seq!["upgrade"@, "--install"@, "--wait"@, "--timeout"@, "2m0s"@, "-f"@, values_default] + (
    match values_profile {
        Some(p) => seq!["-f"@, p],
        None => Seq::<Seq<char>>::empty(),
    }) + deployment_args(d)
}

/// Build the chart tool invocation that deploys the given deployment with
/// the given values files.
pub fn create_deploy(
    deployment: Deployment,
    values_default: String,
    values_profile: Option<String>,
) -> (c: Command)
    ensures
        c@.program == "helm"@,
        c@.args == deploy_args(deployment@, values_default@, values_profile.deep_view()),
{
    let ghost vd = values_default@;
    let ghost vp = values_profile.deep_view();
    let mut command = Command::new("helm");
    command.arg_pair("upgrade".to_owned(), "--install".to_owned());
    command.arg("--wait".to_owned());
    command.arg_pair("--timeout".to_owned(), "2m0s".to_owned());
    command.arg_pair("-f".to_owned(), values_default);
    if let Some(p) = values_profile {
        command.arg_pair("-f".to_owned(), p);
    }
    deployment.append_deployment_information(&mut command);
    proof {
        assert(command@.args =~= deploy_args(deployment@, vd, vp));
    }
    command
}

/// The exact outcome a deployment request owes: each validation error in
/// the order the checks run, and otherwise a plan holding the deploy
/// command, gated on confirmation exactly when the skip-confirmation switch is off.
pub open spec fn deploy_outcome(
    profile: Option<Seq<char>>,
    dir: Seq<char>,
    m: RawManifestView,
    values_default_exists: bool,
    values_profile_exists: bool,
    skip_confirmation: bool,
    r: Result<ActionPlan, Error>,
) -> bool {
    if !manifest_loads(m) {
        r matches Err(e) && load_error(m, e)
    } else if !values_default_exists {
        r matches Err(e) && e matches Error::ValuesDefaultMissing(p) && p@
            == values::values_default_path(dir)
    } else {
        match profile {
            Some(pn) => if !values_profile_exists {
                r matches Err(e) && e matches Error::ValuesProfileMissing(p) && p@
                    == values::values_profile_path(dir, pn)
            } else {
                r matches Ok(plan) && plan.needs_confirmation == !skip_confirmation
                    && plan.command@.program == "helm"@ && plan.command@.args == deploy_args(
                    loaded_deployment(dir, m),
                    values::values_default_path(dir),
                    Some(values::values_profile_path(dir, pn)),
                )
            },
            None => r matches Ok(plan) && plan.needs_confirmation == !skip_confirmation
                && plan.command@.program == "helm"@ && plan.command@.args == deploy_args(
                loaded_deployment(dir, m),
                values::values_default_path(dir),
                None,
            ),
        }
    }
}

/// Validate the manifest text and the presence of the values files, and
/// produce the deploy invocation, gated on user confirmation unless the
/// skip-confirmation switch suppresses it. The caller reads the manifest file,
/// reports whether each values file exists, prompts if asked to, and runs
/// the command.
pub fn deploy(
    profile: Option<String>,
    deploy_file_dir: &str,
    manifest_text: &str,
    values_default_exists: bool,
    values_profile_exists: bool,
    skip_confirmation: bool,
) -> (r: Result<ActionPlan, Error>)
    ensures
        deploy_outcome(
            profile.deep_view(),
            deploy_file_dir@,
            manifest_of(manifest_text@),
            values_default_exists,
            values_profile_exists,
            skip_confirmation,
            r,
        ),
{
    let deployment = match Deployment::new(deploy_file_dir, manifest_text) {
        Ok(d) => d,
        Err(e) => {
            return Err(e);
        },
    };

    let values_default = values::default(deploy_file_dir);
    if !values_default_exists {
        return Err(Error::ValuesDefaultMissing(values_default));
    }

    let values_profile = values::profile(deploy_file_dir, &profile);
    if let Some(p) = &values_profile {
        if !values_profile_exists {
            return Err(Error::ValuesProfileMissing(p.clone()));
        }
    }

    Ok(
        ActionPlan {
            needs_confirmation: !skip_confirmation,
            command: create_deploy(deployment, values_default, values_profile),
        },
    )
}

} // verus!

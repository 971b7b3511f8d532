use vstd::prelude::*;

use crate::Error;
use crate::command::Command;
use crate::deploy_config::{
    Deployment, DeploymentView, RawManifestView, deployment_args, load_error, loaded_deployment,
    manifest_loads, manifest_of,
};
use super::values;

verus! {

/// The exact argument list of a dry-run check: the install subcommand
/// tokens, the deployment information, the values files in their fixed
/// order, and the dry-run flag.
pub open spec fn check_args(
    d: DeploymentView,
    values_default: Seq<char>,
    values_profile: Option<Seq<char>>,
) -> Seq<Seq<char>> {
    seq!["upgrade"@, "--install"@] + deployment_args(d) + seq!["-f"@, values_default] + (
    match values_profile {
        Some(p) => seq!["-f"@, p],
        None => Seq::<Seq<char>>::empty(),
    }) + seq!["--dry-run"@]
}

/// Build the chart tool invocation for a dry-run check of the given
/// deployment against the given values files.
pub fn create_check(
    deployment: Deployment,
    values_default: String,
    values_profile: Option<String>,
) -> (c: Command)
    ensures
        c@.program == "helm"@,
        c@.args == check_args(deployment@, values_default@, values_profile.deep_view()),
{
    let ghost vd = values_default@;
    let ghost vp = values_profile.deep_view();
    let mut command = Command::new("helm");
    command.arg_pair("upgrade".to_owned(), "--install".to_owned());
    deployment.append_deployment_information(&mut command);
    command.arg_pair("-f".to_owned(), values_default);
    if let Some(p) = values_profile {
        command.arg_pair("-f".to_owned(), p);
    }
    command.arg("--dry-run".to_owned());
    proof {
        assert(command@.args =~= check_args(deployment@, vd, vp));
    }
    command
}

/// The exact outcome a check owes: each validation error in the order the
/// checks run (manifest first, then the default values file, then the
/// profile's), and otherwise the dry-run command, argument for argument.
pub open spec fn check_outcome(
    profile: Option<Seq<char>>,
    dir: Seq<char>,
    m: RawManifestView,
    values_default_exists: bool,
    values_profile_exists: bool,
    r: Result<Command, Error>,
) -> bool {
    if !manifest_loads(m) {
        r matches Err(e) && load_error(m, e)
    } else if !values_default_exists {
        r matches Err(e) && e matches Error::ValuesDefaultMissing(p) && p@
            == values::values_default_path(dir)
    } else {
        match profile {
            Some(pn) => if !values_profile_exists {
                r matches Err(e) && e matches Error::ValuesProfileMissing(p) && p@
                    == values::values_profile_path(dir, pn)
            } else {
                r matches Ok(c) && c@.program == "helm"@ && c@.args == check_args(
                    loaded_deployment(dir, m),
                    values::values_default_path(dir),
                    Some(values::values_profile_path(dir, pn)),
                )
            },
            None => r matches Ok(c) && c@.program == "helm"@ && c@.args == check_args(
                loaded_deployment(dir, m),
                values::values_default_path(dir),
                None,
            ),
        }
    }
}

/// Validate the manifest text and the presence of the values files, and
/// produce the dry-run invocation that checks the deployment. The caller
/// reads the manifest file and reports whether each values file exists at
/// the path this library assigns it.
pub fn check(
    profile: Option<String>,
    deploy_file_dir: &str,
    manifest_text: &str,
    values_default_exists: bool,
    values_profile_exists: bool,
) -> (r: Result<Command, Error>)
    ensures
        check_outcome(
            profile.deep_view(),
            deploy_file_dir@,
            manifest_of(manifest_text@),
            values_default_exists,
            values_profile_exists,
            r,
        ),
{
    let deployment = match Deployment::new(deploy_file_dir, manifest_text) {
        Ok(d) => d,
        Err(e) => {
            return Err(e);
        },
    };

    let values_default = values::default(deploy_file_dir);
    if !values_default_exists {
        return Err(Error::ValuesDefaultMissing(values_default));
    }

    let values_profile = values::profile(deploy_file_dir, &profile);
    if let Some(p) = &values_profile {
        if !values_profile_exists {
            return Err(Error::ValuesProfileMissing(p.clone()));
        }
    }

    Ok(create_check(deployment, values_default, values_profile))
}

} // verus!

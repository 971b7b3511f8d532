use vstd::prelude::*;
use vstd::string::*;

use crate::Error;

verus! {

/// Whether a release name would act as a path: it contains a separator.
pub open spec fn name_is_path(s: Seq<char>) -> bool {
    exists|i: int| 0 <= i < s.len() && s[i] == '/'
}

fn contains_slash(s: &str) -> (b: bool)
    ensures
        b == name_is_path(s@),
{
    let n = s.unicode_len();
    let mut i: usize = 0;
    while i < n
        invariant
            n == s@.len(),
            i <= n,
            forall|j: int| 0 <= j < i ==> s@[j] != '/',
        decreases n - i,
    {
        if s.get_char(i) == '/' {
            proof {
                assert(s@[i as int] == '/');
            }
            return true;
        }
        i = i + 1;
    }
    false
}

/// The scaffold manifest written for a fresh deployment: the chart defaults
/// plus commented-out location hints, all mentioning the deployment's name.
pub open spec fn default_deployment_content(name: Seq<char>) -> Seq<char> {
    "name: "@ + name + "\nversion: 1.0\nnamespace: default\nlocation:\n  # repo: https://artifacthub.io/"@
        + name + "\n  # local: /home/root/charts/"@ + name
}

/// The text of the scaffold manifest for a fresh deployment of the given
/// name.
pub fn create_default_deployment(deployment_name: &str) -> (r: String)
    ensures
        r@ == default_deployment_content(deployment_name@),
{
    "name: ".to_owned().concat(deployment_name).concat(
        "\nversion: 1.0\nnamespace: default\nlocation:\n  # repo: https://artifacthub.io/",
    ).concat(deployment_name).concat("\n  # local: /home/root/charts/").concat(deployment_name)
}

/// One file the initialization writes: its name inside the new directory,
/// and its content (an empty file when absent).
pub struct InitFile {
    pub name: String,
    pub content: Option<String>,
}

/// What initialization creates: a directory named after the deployment, and
/// the files written inside it, in order.
pub struct InitPlan {
    pub directory: String,
    pub files: Vec<InitFile>,
}

/// The exact outcome initialization owes: a name holding a path separator
/// is rejected, and otherwise the plan creates the directory, an empty
/// default values file, and the scaffold manifest, in that order.
pub open spec fn init_outcome(name: Seq<char>, r: Result<InitPlan, Error>) -> bool {
    if name_is_path(name) {
        r matches Err(e) && e matches Error::ReleaseNameIsPath
    } else {
        &&& r matches Ok(plan)
        &&& plan.directory@ == name
        &&& plan.files@.len() == 2
        &&& plan.files@[0].name@ == "values-default.yaml"@
        &&& plan.files@[0].content is None
        &&& plan.files@[1].name@ == "deployment.yaml"@
        &&& plan.files@[1].content matches Some(c) && c@ == default_deployment_content(name)
    }
}

/// Decide what a fresh deployment configuration consists of: the directory
/// to create and the files to write into it. A name that would act as a
/// path is rejected before anything is created. The caller performs the
/// writes, in order.
pub fn initialize_configuration(deployment_name: &str) -> (r: Result<InitPlan, Error>)
    ensures
        init_outcome(deployment_name@, r),
{
    if contains_slash(deployment_name) {
        return Err(Error::ReleaseNameIsPath);
    }

    let mut files: Vec<InitFile> = Vec::new();
    files.push(InitFile { name: "values-default.yaml".to_owned(), content: None });
    files.push(
        InitFile {
            name: "deployment.yaml".to_owned(),
            content: Some(create_default_deployment(deployment_name)),
        },
    );
    Ok(InitPlan { directory: deployment_name.to_owned(), files })
}

} // verus!

use vstd::prelude::*;
use vstd::string::*;

verus! {

/// The path of the mandatory default values file inside a context directory.
pub open spec fn values_default_path(base_path: Seq<char>) -> Seq<char> {
    base_path + "/values-default.yaml"@
}

/// The path of the values file for a named profile inside a context
/// directory.
pub open spec fn values_profile_path(base_path: Seq<char>, profile: Seq<char>) -> Seq<char> {
    base_path + "/values-"@ + profile + ".yaml"@
}

/// The path where the mandatory default values file must live. Whether it
/// actually exists is the caller's business.
pub fn default(base_path: &str) -> (r: String)
    ensures
        r@ == values_default_path(base_path@),
{
    base_path.to_owned().concat("/values-default.yaml")
}

/// The path where the selected profile's values file must live, or nothing
/// when no profile was selected.
pub fn profile(base_path: &str, profile_name: &Option<String>) -> (r: Option<String>)
    ensures
        match profile_name {
            Some(p) => r matches Some(v) && v@ == values_profile_path(base_path@, p@),
            None => r is None,
        },
{
    match profile_name {
        Some(p) => Some(
            base_path.to_owned().concat("/values-").concat(p.as_str()).concat(".yaml"),
        ),
        None => None,
    }
}

} // verus!

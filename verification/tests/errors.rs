use shippr::actions::values::profile;
use shippr::Error;

#[test]
fn error_messages_are_one_line() {
    assert_eq!(
        Error::InvalidDirectory.message(),
        "The given directory is not a valid directory path"
    );
    assert_eq!(
        Error::NoNamespacePassed.message(),
        "Either --namespace or --all-namespaces must be present"
    );
    assert_eq!(
        Error::DuplicateLocation.message(),
        "Both the local and repository location are set. Only one can be set"
    );
    assert_eq!(
        Error::MissingTool(String::from("helm")).message(),
        "helm is not installed"
    );
    assert_eq!(
        Error::FaultyTool(String::from("kubectl")).message(),
        "kubectl is installed but is not working properly"
    );
    assert_eq!(
        Error::ValuesDefaultMissing(String::from("d/values-default.yaml")).message(),
        "The values-default.yaml file does not exist: path: d/values-default.yaml"
    );
    assert_eq!(
        Error::ValuesProfileMissing(String::from("d/values-p.yaml")).message(),
        "A profile was passed but no fitting values file exists: path: d/values-p.yaml"
    );
    assert_eq!(
        Error::CouldNotFigureOutReleaseName.message(),
        "The release name could not be determined in that namespace"
    );
    assert_eq!(
        Error::ReleaseNameIsPath.message(),
        "The given release name cannot be the path. As such it cannot contain characters like /"
    );
    assert_eq!(
        Error::ConfigError(String::from("broken")).message(),
        "Configuration Error: broken"
    );
    assert_eq!(
        Error::IoError(String::from("gone")).message(),
        "I/O Error: gone"
    );
    assert_eq!(
        Error::Utf8Error(String::from("bad byte")).message(),
        "Failed to convert CLI stdout to string: bad byte"
    );
}

#[test]
fn default_values_path_is_joined() {
    assert_eq!(shippr::actions::values::default("dir"), "dir/values-default.yaml");
}

#[test]
fn profile_values_path_is_joined() {
    assert_eq!(
        profile("dir", &Some(String::from("dev"))),
        Some(String::from("dir/values-dev.yaml"))
    );
    assert_eq!(profile("dir", &None), None);
}

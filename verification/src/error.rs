use vstd::prelude::*;
use vstd::string::*;

verus! {

/// Everything that can go wrong during one invocation. Every variant renders
/// as a one-line, human-readable message through [`Error::message`].
#[derive(Debug)]
pub enum Error {
    /// The given context directory is not a usable directory path.
    InvalidDirectory,
    /// Neither a namespace nor the all-namespaces switch was given to cleanup.
    NoNamespacePassed,
    /// The manifest names both a local and a repository chart location, or neither.
    DuplicateLocation,
    /// A required external tool is not installed.
    MissingTool(String),
    /// A required external tool is installed but not functioning.
    FaultyTool(String),
    /// The mandatory default values file is absent.
    ValuesDefaultMissing(String),
    /// A profile was selected but its values file is absent.
    ValuesProfileMissing(String),
    /// The external tool's release inventory could not be parsed.
    CouldNotFigureOutReleaseName,
    /// A release name would act as a path (it contains a separator).
    ReleaseNameIsPath,
    /// The deployment manifest is missing, malformed, or lacks a required field.
    ConfigError(String),
    /// An I/O operation outside the library failed.
    IoError(String),
    /// External tool output was not valid text.
    Utf8Error(String),
}

/// The exact one-line message each error renders as.
pub open spec fn spec_message(e: Error) -> Seq<char> {
    match e {
        Error::InvalidDirectory => "The given directory is not a valid directory path"@,
        Error::NoNamespacePassed => "Either --namespace or --all-namespaces must be present"@,
        Error::DuplicateLocation => "Both the local and repository location are set. Only one can be set"@,
        Error::MissingTool(t) => t@ + " is not installed"@,
        Error::FaultyTool(t) => t@ + " is installed but is not working properly"@,
        Error::ValuesDefaultMissing(p) => "The values-default.yaml file does not exist: path: "@ + p@,
        Error::ValuesProfileMissing(p) => "A profile was passed but no fitting values file exists: path: "@ + p@,
        Error::CouldNotFigureOutReleaseName => "The release name could not be determined in that namespace"@,
        Error::ReleaseNameIsPath => "The given release name cannot be the path. As such it cannot contain characters like /"@,
        Error::ConfigError(m) => "Configuration Error: "@ + m@,
        Error::IoError(m) => "I/O Error: "@ + m@,
        Error::Utf8Error(m) => "Failed to convert CLI stdout to string: "@ + m@,
    }
}

impl Error {
    /// Render the error as its one-line, human-readable message.
    pub fn message(&self) -> (m: String)
        ensures
            m@ == spec_message(*self),
    {
        match self {
            Error::InvalidDirectory => "The given directory is not a valid directory path".to_owned(),
            Error::NoNamespacePassed => "Either --namespace or --all-namespaces must be present".to_owned(),
            Error::DuplicateLocation => "Both the local and repository location are set. Only one can be set".to_owned(),
            Error::MissingTool(t) => t.clone().concat(" is not installed"),
            Error::FaultyTool(t) => t.clone().concat(" is installed but is not working properly"),
            Error::ValuesDefaultMissing(p) => "The values-default.yaml file does not exist: path: ".to_owned().concat(p.as_str()),
            Error::ValuesProfileMissing(p) => "A profile was passed but no fitting values file exists: path: ".to_owned().concat(p.as_str()),
            Error::CouldNotFigureOutReleaseName => "The release name could not be determined in that namespace".to_owned(),
            Error::ReleaseNameIsPath => "The given release name cannot be the path. As such it cannot contain characters like /".to_owned(),
            Error::ConfigError(m) => "Configuration Error: ".to_owned().concat(m.as_str()),
            Error::IoError(m) => "I/O Error: ".to_owned().concat(m.as_str()),
            Error::Utf8Error(m) => "Failed to convert CLI stdout to string: ".to_owned().concat(m.as_str()),
        }
    }
}

} // verus!

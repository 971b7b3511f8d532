use vstd::prelude::*;

use crate::Error;
use crate::command::Command;

verus! {

// ---------------------------------------------------------------------------
// The raw manifest: what the YAML parser hands back, before validation.
// ---------------------------------------------------------------------------

/// The string-valued fields a deployment manifest may carry, each absent when
/// the document does not hold it as a string at the expected place.
pub struct RawChart {
    pub name: Option<String>,
    pub version: Option<String>,
    pub namespace: Option<String>,
    pub repo: Option<String>,
    pub local: Option<String>,
}

/// The outcome of reading one deployment manifest document.
pub enum RawManifest {
    /// The text is not well-formed YAML.
    Malformed,
    /// The fields found in the first document (absent document included:
    /// every field is then `None`).
    Fields(RawChart),
}

pub struct RawChartView {
    pub name: Option<Seq<char>>,
    pub version: Option<Seq<char>>,
    pub namespace: Option<Seq<char>>,
    pub repo: Option<Seq<char>>,
    pub local: Option<Seq<char>>,
}

pub enum RawManifestView {
    Malformed,
    Fields(RawChartView),
}

impl View for RawChart {
    type V = RawChartView;

    open spec fn view(&self) -> RawChartView {
        RawChartView {
            name: self.name.deep_view(),
            version: self.version.deep_view(),
            namespace: self.namespace.deep_view(),
            repo: self.repo.deep_view(),
            local: self.local.deep_view(),
        }
    }
}

impl View for RawManifest {
    type V = RawManifestView;

    open spec fn view(&self) -> RawManifestView {
        match self {
            RawManifest::Malformed => RawManifestView::Malformed,
            RawManifest::Fields(c) => RawManifestView::Fields(c@),
        }
    }
}

/// What the YAML parser finds in a manifest text: a function of the text
/// alone.
pub uninterp spec fn manifest_of(s: Seq<char>) -> RawManifestView;

/// Relies on `yaml_rust2::YamlLoader::load_from_str` to parse the manifest
/// text, on `Yaml`'s `Index<&str>` (a missing key, or indexing a non-mapping,
/// yields `Yaml::BadValue`) and on `Yaml::as_str` (`Some` exactly for string
/// scalars) to pick the expected fields out of the first document. The parse
/// depends on the text alone, so the result is named `manifest_of`.
#[verifier::external_body]
fn read_manifest(s: &str) -> (r: RawManifest)
    ensures
        r@ == manifest_of(s@),
{
    match yaml_rust2::YamlLoader::load_from_str(s) {
        Err(_) => RawManifest::Malformed,
        Ok(docs) => {
            let doc = docs.into_iter().next().unwrap_or(yaml_rust2::Yaml::BadValue);
            RawManifest::Fields(RawChart {
                name: doc["name"].as_str().map(str::to_string),
                version: doc["version"].as_str().map(str::to_string),
                namespace: doc["namespace"].as_str().map(str::to_string),
                repo: doc["location"]["repo"].as_str().map(str::to_string),
                local: doc["location"]["local"].as_str().map(str::to_string),
            })
        },
    }
}

// ---------------------------------------------------------------------------
// The validated deployment model.
// ---------------------------------------------------------------------------

/// The release identity side of a deployment: the name the release is
/// installed under (derived from the context directory).
pub struct Release {
    pub name: String,
}

/// Where the chart comes from: a repository URL, a local path, or (illegal
/// after validation) both or neither.
pub struct Location {
    pub repo: Option<String>,
    pub local: Option<String>,
}

/// The chart side of a deployment manifest.
pub struct DeployChart {
    pub name: String,
    pub version: Option<String>,
    pub namespace: Option<String>,
    pub location: Location,
}

/// A validated deployment: a release name plus the chart it deploys.
/// [`Deployment::new`] only ever returns values satisfying [`Deployment::wf`]:
/// exactly one chart location is set.
pub struct Deployment {
    pub release: Release,
    pub chart: DeployChart,
}

pub struct LocationView {
    pub repo: Option<Seq<char>>,
    pub local: Option<Seq<char>>,
}

pub struct DeployChartView {
    pub name: Seq<char>,
    pub version: Option<Seq<char>>,
    pub namespace: Option<Seq<char>>,
    pub location: LocationView,
}

pub struct DeploymentView {
    pub release_name: Seq<char>,
    pub chart: DeployChartView,
}

impl View for Location {
    type V = LocationView;

    open spec fn view(&self) -> LocationView {
        LocationView { repo: self.repo.deep_view(), local: self.local.deep_view() }
    }
}

impl View for DeployChart {
    type V = DeployChartView;

    open spec fn view(&self) -> DeployChartView {
        DeployChartView {
            name: self.name@,
            version: self.version.deep_view(),
            namespace: self.namespace.deep_view(),
            location: self.location@,
        }
    }
}

impl View for Deployment {
    type V = DeploymentView;

    open spec fn view(&self) -> DeploymentView {
        DeploymentView { release_name: self.release.name@, chart: self.chart@ }
    }
}

/// The name of the manifest file inside a context directory.
pub struct DeploymentFileName(pub String);

impl Default for DeploymentFileName {
    fn default() -> (r: Self)
        ensures
            r.0@ == "deployment"@,
    {
        DeploymentFileName("deployment".to_owned())
    }
}

impl Location {
    /// Whether the location is ambiguous: both or neither of the repository
    /// and the local path are set.
    pub fn has_duplicate_location(&self) -> (b: bool)
        ensures
            b == (self.local.is_some() == self.repo.is_some()),
    {
        self.local.is_some() == self.repo.is_some()
    }
}

impl DeployChart {
    /// Whether this chart's location is ambiguous.
    pub fn has_duplicate_location(&self) -> (b: bool)
        ensures
            b == (self.location.local.is_some() == self.location.repo.is_some()),
    {
        self.location.has_duplicate_location()
    }
}

impl DeploymentView {
    /// The invariant every validated deployment satisfies: exactly one chart
    /// location is set.
    pub open spec fn wf(self) -> bool {
        self.chart.location.local.is_some() != self.chart.location.repo.is_some()
    }
}

impl Deployment {
    pub open spec fn wf(self) -> bool {
        self@.wf()
    }
}

// ---------------------------------------------------------------------------
// Validation: raw manifest -> deployment.
// ---------------------------------------------------------------------------

/// Whether a raw manifest passes validation: it parsed, it names a chart,
/// and it sets exactly one chart location.
pub open spec fn manifest_loads(m: RawManifestView) -> bool {
    m matches RawManifestView::Fields(c) && c.name is Some && (c.repo.is_some()
        != c.local.is_some())
}

/// The fields of a parsed manifest.
pub open spec fn fields_of(m: RawManifestView) -> RawChartView
    recommends
        m is Fields,
{
    match m {
        RawManifestView::Fields(c) => c,
        RawManifestView::Malformed => arbitrary(),
    }
}

/// The deployment a valid manifest loads as, given the context directory the
/// release is declared in.
pub open spec fn loaded_deployment(directory: Seq<char>, m: RawManifestView) -> DeploymentView
    recommends
        manifest_loads(m),
{
    let c = fields_of(m);
    DeploymentView {
        release_name: directory,
        chart: DeployChartView {
            name: c.name.unwrap(),
            version: c.version,
            namespace: c.namespace,
            location: LocationView { repo: c.repo, local: c.local },
        },
    }
}

/// The exact error owed when a raw manifest fails validation: a parse
/// failure or a missing chart name is a configuration error, an ambiguous
/// chart location is the duplicate-location error.
pub open spec fn load_error(m: RawManifestView, e: Error) -> bool
    recommends
        !manifest_loads(m),
{
    match m {
        RawManifestView::Malformed => e matches Error::ConfigError(msg) && msg@
            == "the deployment file could not be parsed"@,
        RawManifestView::Fields(c) => match c.name {
            None => e matches Error::ConfigError(msg) && msg@
                == "the deployment file is missing the chart name"@,
            Some(_) => e matches Error::DuplicateLocation,
        },
    }
}

/// The exact outcome [`Deployment::new`] owes for a given directory and raw
/// manifest: the dedicated error when validation fails, the loaded
/// deployment, field for field, when it does not.
pub open spec fn load_outcome(
    directory: Seq<char>,
    m: RawManifestView,
    r: Result<Deployment, Error>,
) -> bool {
    if manifest_loads(m) {
        r matches Ok(d) && d@ == loaded_deployment(directory, m)
    } else {
        r matches Err(e) && load_error(m, e)
    }
}

impl Deployment {
    /// Load a deployment from the text of the manifest file found in the
    /// given context directory. The directory path itself becomes the release
    /// name, as the release is installed under the name of the place it is
    /// declared in.
    pub fn new(directory: &str, manifest_text: &str) -> (r: Result<Deployment, Error>)
        ensures
            load_outcome(directory@, manifest_of(manifest_text@), r),
            r matches Ok(d) ==> d.wf(),
    {
        match read_manifest(manifest_text) {
            RawManifest::Malformed => Err(
                Error::ConfigError("the deployment file could not be parsed".to_owned()),
            ),
            RawManifest::Fields(c) => match c.name {
                None => Err(
                    Error::ConfigError("the deployment file is missing the chart name".to_owned()),
                ),
                Some(chart_name) => {
                    let location = Location { repo: c.repo, local: c.local };
                    if location.has_duplicate_location() {
                        Err(Error::DuplicateLocation)
                    } else {
                        Ok(
                            Deployment {
                                release: Release { name: directory.to_owned() },
                                chart: DeployChart {
                                    name: chart_name,
                                    version: c.version,
                                    namespace: c.namespace,
                                    location,
                                },
                            },
                        )
                    }
                },
            },
        }
    }
}

/// Chart-location exclusivity: a manifest that names a chart, together with
/// both locations or neither, always fails to load, and with the
/// duplicate-location error; one that names a chart and exactly one location
/// always loads.
pub proof fn lemma_location_exclusivity(
    directory: Seq<char>,
    c: RawChartView,
    r: Result<Deployment, Error>,
)
    requires
        load_outcome(directory, RawManifestView::Fields(c), r),
        c.name is Some,
    ensures
        (c.repo.is_some() == c.local.is_some()) <==> (r matches Err(e) && e matches
            Error::DuplicateLocation),
        (c.repo.is_some() != c.local.is_some()) <==> r is Ok,
{
}

// ---------------------------------------------------------------------------
// Argument building.
// ---------------------------------------------------------------------------

/// The chart-information arguments: the version flag when a version is set,
/// then the namespace flag pair and the create-namespace flag when a
/// namespace is set.
pub open spec fn chart_info_args(c: DeployChartView) -> Seq<Seq<char>> {
    (match c.version {
        Some(v) => seq!["--version"@, v],
        None => Seq::<Seq<char>>::empty(),
    }) + (match c.namespace {
        Some(n) => seq!["--namespace"@, n, "--create-namespace"@],
        None => Seq::<Seq<char>>::empty(),
    })
}

/// The chart-location arguments: a local path is appended bare; a repository
/// location appends the chart name and then the repository flag pair.
pub open spec fn chart_location_args(c: DeployChartView) -> Seq<Seq<char>> {
    match c.location.local {
        Some(l) => seq![l],
        None => match c.location.repo {
            Some(rp) => seq![c.name, "--repo"@, rp],
            None => Seq::<Seq<char>>::empty(),
        },
    }
}

/// The full deploy-time argument tail: chart information, then the release
/// name, then the chart location.
pub open spec fn deployment_args(d: DeploymentView) -> Seq<Seq<char>> {
    chart_info_args(d.chart) + seq![d.release_name] + chart_location_args(d.chart)
}

/// The undeploy-time argument tail: the release name, then the namespace
/// flag pair when a namespace is set.
pub open spec fn undeployment_args(d: DeploymentView) -> Seq<Seq<char>> {
    seq![d.release_name] + (match d.chart.namespace {
        Some(n) => seq!["--namespace"@, n],
        None => Seq::<Seq<char>>::empty(),
    })
}

impl Release {
    fn append_release_information(&self, command: &mut Command)
        ensures
            final(command)@.program == old(command)@.program,
            final(command)@.args == old(command)@.args.push(self.name@),
    {
        command.arg(self.name.clone());
    }
}

impl DeployChart {
    fn append_chart_information(&self, command: &mut Command)
        ensures
            final(command)@.program == old(command)@.program,
            final(command)@.args == old(command)@.args + chart_info_args(self@),
    {
        let ghost at_entry = command@.args;
        if let Some(version) = &self.version {
            command.arg_pair("--version".to_owned(), version.clone());
        }
        if let Some(namespace) = &self.namespace {
            command.arg_pair("--namespace".to_owned(), namespace.clone());
            command.arg("--create-namespace".to_owned());
        }
        proof {
            assert(command@.args =~= at_entry + chart_info_args(self@));
        }
    }

    fn append_chart_location(&self, command: &mut Command)
        ensures
            final(command)@.program == old(command)@.program,
            final(command)@.args == old(command)@.args + chart_location_args(self@),
    {
        let ghost at_entry = command@.args;
        if let Some(local) = &self.location.local {
            command.arg(local.clone());
        } else if let Some(repo) = &self.location.repo {
            command.arg(self.name.clone());
            command.arg_pair("--repo".to_owned(), repo.clone());
        }
        proof {
            assert(command@.args =~= at_entry + chart_location_args(self@));
        }
    }
}

impl Deployment {
    /// Append everything a deploy-type invocation needs: chart information,
    /// release name, chart location, in that order.
    pub fn append_deployment_information(&self, command: &mut Command)
        ensures
            final(command)@.program == old(command)@.program,
            final(command)@.args == old(command)@.args + deployment_args(self@),
    {
        let ghost at_entry = command@.args;
        self.chart.append_chart_information(command);
        self.release.append_release_information(command);
        self.chart.append_chart_location(command);
        proof {
            assert(command@.args =~= at_entry + deployment_args(self@));
        }
    }

    /// Append everything an undeploy invocation needs: the release name and
    /// its namespace.
    pub fn append_undeployment_information(&self, command: &mut Command)
        ensures
            final(command)@.program == old(command)@.program,
            final(command)@.args == old(command)@.args + undeployment_args(self@),
    {
        let ghost at_entry = command@.args;
        self.release.append_release_information(command);
        if let Some(namespace) = &self.chart.namespace {
            command.arg_pair("--namespace".to_owned(), namespace.clone());
        }
        proof {
            assert(command@.args =~= at_entry + undeployment_args(self@));
        }
    }
}

} // verus!

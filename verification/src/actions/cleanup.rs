use vstd::prelude::*;
use vstd::string::*;

use crate::Error;
use crate::command::Command;

verus! {

// ---------------------------------------------------------------------------
// Release identities.
// ---------------------------------------------------------------------------

pub type Name = String;
pub type Namespace = String;

/// One deployed release's identity: its name paired with its namespace.
/// The pair is the unit of comparison for reconciliation: the same name may
/// legally appear in several namespaces.
pub type Release = (Name, Namespace);

/// A release identity in specifications.
pub type ReleaseId = (Seq<char>, Seq<char>);

/// The set of releases one inventory listing reports, in listing order.
pub struct Releases {
    pub content: Vec<Release>,
}

impl View for Releases {
    type V = Seq<ReleaseId>;

    open spec fn view(&self) -> Seq<ReleaseId> {
        self.content.deep_view()
    }
}

// ---------------------------------------------------------------------------
// Parsing the external tool's inventory listing.
// ---------------------------------------------------------------------------

/// One element of the inventory listing, reduced to the two fields the
/// reconciliation reads; a field is absent when the element does not hold it
/// as a string.
pub struct RawEntry {
    pub name: Option<String>,
    pub namespace: Option<String>,
}

/// The outcome of reading an inventory listing.
pub enum RawInventory {
    /// The text is not well-formed YAML.
    Malformed,
    /// The text holds no document at all (empty output).
    NoDocument,
    /// The first document is not a sequence (a null document, say).
    NotSequence,
    /// The elements of the sequence, in order.
    Entries(Vec<RawEntry>),
}

pub struct RawEntryView {
    pub name: Option<Seq<char>>,
    pub namespace: Option<Seq<char>>,
}

pub enum RawInventoryView {
    Malformed,
    NoDocument,
    NotSequence,
    Entries(Seq<RawEntryView>),
}

impl View for RawEntry {
    type V = RawEntryView;

    open spec fn view(&self) -> RawEntryView {
        RawEntryView { name: self.name.deep_view(), namespace: self.namespace.deep_view() }
    }
}

impl DeepView for RawEntry {
    type V = RawEntryView;

    open spec fn deep_view(&self) -> RawEntryView {
        self@
    }
}

impl View for RawInventory {
    type V = RawInventoryView;

    open spec fn view(&self) -> RawInventoryView {
        match self {
            RawInventory::Malformed => RawInventoryView::Malformed,
            RawInventory::NoDocument => RawInventoryView::NoDocument,
            RawInventory::NotSequence => RawInventoryView::NotSequence,
            RawInventory::Entries(es) => RawInventoryView::Entries(es.deep_view()),
        }
    }
}

/// What the YAML parser finds in an inventory listing: a function of the
/// text alone.
pub uninterp spec fn inventory_of(s: Seq<char>) -> RawInventoryView;

/// Relies on `yaml_rust2::YamlLoader::load_from_str` to parse the listing
/// (empty input yields no documents at all), on `Yaml`'s `Index<&str>` (a
/// missing key, or indexing a non-mapping, yields `Yaml::BadValue`) and on
/// `Yaml::as_str` (`Some` exactly for string scalars) to pick each element's
/// name and namespace. The parse depends on the text alone, so the result is
/// named `inventory_of`.
#[verifier::external_body]
fn read_inventory(s: &str) -> (r: RawInventory)
    ensures
        r@ == inventory_of(s@),
        s@.len() == 0 ==> r is NoDocument,
{
    match yaml_rust2::YamlLoader::load_from_str(s) {
        Err(_) => RawInventory::Malformed,
        Ok(docs) => match docs.into_iter().next() {
            None => RawInventory::NoDocument,
            Some(yaml_rust2::Yaml::Array(items)) => RawInventory::Entries(
                items.iter().map(
                    |y: &yaml_rust2::Yaml| RawEntry {
                        name: y["name"].as_str().map(str::to_string),
                        namespace: y["namespace"].as_str().map(str::to_string),
                    },
                ).collect(),
            ),
            Some(_) => RawInventory::NotSequence,
        },
    }
}

/// Whether an inventory element carries both of the fields an identity
/// needs; one that does not is dropped, and drops nothing else.
pub open spec fn complete_entry(e: RawEntryView) -> bool {
    e.name is Some && e.namespace is Some
}

pub open spec fn entry_identity(e: RawEntryView) -> ReleaseId
    recommends
        complete_entry(e),
{
    (e.name.unwrap(), e.namespace.unwrap())
}

/// The identities of the complete elements, in listing order.
pub open spec fn identities_of(entries: Seq<RawEntryView>) -> Seq<ReleaseId>
    decreases entries.len(),
{
    if entries.len() == 0 {
        Seq::empty()
    } else {
        let rest = identities_of(entries.drop_last());
        if complete_entry(entries.last()) {
            rest.push(entry_identity(entries.last()))
        } else {
            rest
        }
    }
}

/// The identities an inventory listing reports once it parsed: an absent or
/// non-sequence document reports none.
pub open spec fn inventory_identities(inv: RawInventoryView) -> Seq<ReleaseId>
    recommends
        !(inv is Malformed),
{
    match inv {
        RawInventoryView::Entries(es) => identities_of(es),
        _ => Seq::empty(),
    }
}

/// The exact outcome parsing owes: unparsable text is the dedicated error;
/// anything else yields the listing's identities (an absent or non-sequence
/// document yields none), with incomplete elements dropped silently.
pub open spec fn parse_outcome(inv: RawInventoryView, r: Result<Releases, Error>) -> bool {
    match inv {
        RawInventoryView::Malformed => r matches Err(e) && e matches
            Error::CouldNotFigureOutReleaseName,
        _ => r matches Ok(rs) && rs@ == inventory_identities(inv),
    }
}

fn releases_from_entries(entries: Vec<RawEntry>) -> (r: Releases)
    ensures
        r@ == identities_of(entries.deep_view()),
{
    let ghost all = entries.deep_view();
    let mut content: Vec<Release> = Vec::new();
    let mut i: usize = 0;
    proof {
        assert(content.deep_view() =~= identities_of(all.take(0)));
    }
    while i < entries.len()
        invariant
            i <= entries.len(),
            all == entries.deep_view(),
            content.deep_view() == identities_of(all.take(i as int)),
        decreases entries.len() - i,
    {
        let entry = &entries[i];
        proof {
            assert(entry@ == all[i as int]);
        }
        match (&entry.name, &entry.namespace) {
            (Some(n), Some(ns)) => {
                let ghost before = content.deep_view();
                let pair = (n.clone(), ns.clone());
                proof {
                    assert(pair.deep_view() == entry_identity(all[i as int]));
                }
                content.push(pair);
                proof {
                    assert(content.deep_view() =~= before.push(entry_identity(all[i as int])));
                }
            },
            _ => {},
        }
        i = i + 1;
        proof {
            assert(all.take(i as int).drop_last() =~= all.take(i - 1));
            assert(all.take(i as int).last() == all[i - 1]);
            assert(content.deep_view() =~= identities_of(all.take(i as int)));
        }
    }
    proof {
        assert(all.take(entries.len() as int) =~= all);
    }
    Releases { content }
}

impl Releases {
    pub fn new(content: Vec<Release>) -> (r: Releases)
        ensures
            r@ == content.deep_view(),
    {
        Releases { content }
    }

    pub fn len(&self) -> (n: usize)
        ensures
            n == self@.len(),
    {
        self.content.len()
    }

    /// Parse the external tool's inventory listing into the set of deployed
    /// release identities.
    pub fn parse(raw_output: &str) -> (r: Result<Releases, Error>)
        ensures
            parse_outcome(inventory_of(raw_output@), r),
            raw_output@.len() == 0 ==> (r matches Ok(rs) && rs@.len() == 0),
    {
        match read_inventory(raw_output) {
            RawInventory::Malformed => Err(Error::CouldNotFigureOutReleaseName),
            RawInventory::NoDocument => {
                let rs = Releases { content: Vec::new() };
                proof {
                    assert(rs@ =~= Seq::<ReleaseId>::empty());
                }
                Ok(rs)
            },
            RawInventory::NotSequence => {
                let rs = Releases { content: Vec::new() };
                proof {
                    assert(rs@ =~= Seq::<ReleaseId>::empty());
                }
                Ok(rs)
            },
            RawInventory::Entries(es) => Ok(releases_from_entries(es)),
        }
    }
}

impl core::str::FromStr for Releases {
    type Err = Error;

    fn from_str(s: &str) -> Result<Self, Error> {
        Releases::parse(s)
    }
}

// ---------------------------------------------------------------------------
// The set difference that drives reconciliation.
// ---------------------------------------------------------------------------

/// The orphaned identities: those of `a` (the deployed set) absent from `d`
/// (the declared set), in `a`'s order. Comparison is on the full
/// name-and-namespace pair.
pub open spec fn seq_diff(a: Seq<ReleaseId>, d: Seq<ReleaseId>) -> Seq<ReleaseId>
    decreases a.len(),
{
    if a.len() == 0 {
        a
    } else {
        let rest = seq_diff(a.drop_last(), d);
        if d.contains(a.last()) {
            rest
        } else {
            rest.push(a.last())
        }
    }
}

/// As [`seq_diff`], but a deployed release is matched by name alone,
/// whatever its namespace: the form used across all namespaces, where the
/// declared side carries no namespace information.
pub open spec fn seq_diff_by_name(a: Seq<ReleaseId>, names: Seq<Seq<char>>) -> Seq<ReleaseId>
    decreases a.len(),
{
    if a.len() == 0 {
        a
    } else {
        let rest = seq_diff_by_name(a.drop_last(), names);
        if names.contains(a.last().0) {
            rest
        } else {
            rest.push(a.last())
        }
    }
}

fn release_eq(a: &Release, b: &Release) -> (r: bool)
    ensures
        r == (a.deep_view() == b.deep_view()),
{
    let eq = a.0 == b.0 && a.1 == b.1;
    proof {
        if a.0@ == b.0@ && a.1@ == b.1@ {
            assert(a.deep_view() == b.deep_view());
        }
    }
    eq
}

fn contains_release(v: &Vec<Release>, r: &Release) -> (b: bool)
    ensures
        b == v.deep_view().contains(r.deep_view()),
{
    let mut i: usize = 0;
    while i < v.len()
        invariant
            i <= v.len(),
            forall|j: int| 0 <= j < i ==> v.deep_view()[j] != r.deep_view(),
        decreases v.len() - i,
    {
        if release_eq(&v[i], r) {
            proof {
                assert(v.deep_view()[i as int] == r.deep_view());
            }
            return true;
        }
        i = i + 1;
    }
    false
}

fn contains_name(names: &Vec<String>, name: &String) -> (b: bool)
    ensures
        b == names.deep_view().contains(name@),
{
    let mut i: usize = 0;
    while i < names.len()
        invariant
            i <= names.len(),
            forall|j: int| 0 <= j < i ==> names.deep_view()[j] != name@,
        decreases names.len() - i,
    {
        if names[i].eq(name) {
            proof {
                assert(names.deep_view()[i as int] == name@);
            }
            return true;
        }
        i = i + 1;
    }
    false
}

impl Releases {
    /// The releases of `self` that are not in `other`, compared by the full
    /// name-and-namespace pair, in `self`'s order.
    pub fn difference(self, other: &Releases) -> (r: Releases)
        ensures
            r@ == seq_diff(self@, other@),
    {
        let ghost all = self@;
        let items = self.content;
        let mut content: Vec<Release> = Vec::new();
        let mut i: usize = 0;
        proof {
            assert(content.deep_view() =~= seq_diff(all.take(0), other@));
        }
        while i < items.len()
            invariant
                i <= items.len(),
                all == items.deep_view(),
                content.deep_view() == seq_diff(all.take(i as int), other@),
            decreases items.len() - i,
        {
            let item = &items[i];
            proof {
                assert(item.deep_view() == all[i as int]);
            }
            if !contains_release(&other.content, item) {
                let ghost before = content.deep_view();
                let pair = (item.0.clone(), item.1.clone());
                proof {
                    assert(pair.deep_view() == all[i as int]);
                }
                content.push(pair);
                proof {
                    assert(content.deep_view() =~= before.push(all[i as int]));
                }
            }
            i = i + 1;
            proof {
                assert(all.take(i as int).drop_last() =~= all.take(i - 1));
                assert(all.take(i as int).last() == all[i - 1]);
                assert(content.deep_view() =~= seq_diff(all.take(i as int), other@));
            }
        }
        proof {
            assert(all.take(items.len() as int) =~= all);
        }
        Releases { content }
    }

    /// The releases of `self` whose name is not among `names`, whatever
    /// their namespace, in `self`'s order.
    pub fn difference_by_name(self, names: &Vec<String>) -> (r: Releases)
        ensures
            r@ == seq_diff_by_name(self@, names.deep_view()),
    {
        let ghost all = self@;
        let items = self.content;
        let mut content: Vec<Release> = Vec::new();
        let mut i: usize = 0;
        proof {
            assert(content.deep_view() =~= seq_diff_by_name(all.take(0), names.deep_view()));
        }
        while i < items.len()
            invariant
                i <= items.len(),
                all == items.deep_view(),
                content.deep_view() == seq_diff_by_name(all.take(i as int), names.deep_view()),
            decreases items.len() - i,
        {
            let item = &items[i];
            proof {
                assert(item.deep_view() == all[i as int]);
            }
            if !contains_name(names, &item.0) {
                let ghost before = content.deep_view();
                let pair = (item.0.clone(), item.1.clone());
                proof {
                    assert(pair.deep_view() == all[i as int]);
                }
                content.push(pair);
                proof {
                    assert(content.deep_view() =~= before.push(all[i as int]));
                }
            }
            i = i + 1;
            proof {
                assert(all.take(i as int).drop_last() =~= all.take(i - 1));
                assert(all.take(i as int).last() == all[i - 1]);
                assert(content.deep_view() =~= seq_diff_by_name(all.take(i as int), names.deep_view()));
            }
        }
        proof {
            assert(all.take(items.len() as int) =~= all);
        }
        Releases { content }
    }
}

// ---------------------------------------------------------------------------
// Rendering and removal commands.
// ---------------------------------------------------------------------------

/// The one-line rendering of one identity.
pub open spec fn release_line(r: ReleaseId) -> Seq<char> {
    "Name: "@ + r.0 + ", Namespace: "@ + r.1
}

/// The rendering of a whole listing: the lines joined by semicolons.
pub open spec fn summary_of(rs: Seq<ReleaseId>) -> Seq<char>
    decreases rs.len(),
{
    if rs.len() == 0 {
        Seq::empty()
    } else if rs.len() == 1 {
        release_line(rs[0])
    } else {
        summary_of(rs.drop_last()) + " ; "@ + release_line(rs.last())
    }
}

/// The argument list that removes one release from its namespace.
pub open spec fn undeploy_args_for(r: ReleaseId) -> Seq<Seq<char>> {
    seq!["uninstall"@, r.0, "--namespace"@, r.1]
}

/// Build the chart tool invocation that removes the given release from its
/// namespace.
pub fn create_undeploy(release: &Release) -> (c: Command)
    ensures
        c@.program == "helm"@,
        c@.args == undeploy_args_for(release.deep_view()),
{
    let mut command = Command::new("helm");
    command.arg_pair("uninstall".to_owned(), release.0.clone());
    command.arg_pair("--namespace".to_owned(), release.1.clone());
    proof {
        assert(command@.args =~= undeploy_args_for(release.deep_view()));
    }
    command
}

impl Releases {
    /// A human-readable, one-line summary of every release in the listing.
    pub fn summary(&self) -> (s: String)
        ensures
            s@ == summary_of(self@),
    {
        let mut s = String::new();
        let mut i: usize = 0;
        proof {
            assert(self@.take(0) =~= Seq::<ReleaseId>::empty());
        }
        while i < self.content.len()
            invariant
                i <= self.content.len(),
                s@ == summary_of(self@.take(i as int)),
            decreases self.content.len() - i,
        {
            let item = &self.content[i];
            proof {
                assert(item.deep_view() == self@[i as int]);
            }
            if i > 0 {
                s.append(" ; ");
            }
            s.append("Name: ");
            s.append(item.0.as_str());
            s.append(", Namespace: ");
            s.append(item.1.as_str());
            i = i + 1;
            proof {
                assert(self@.take(i as int).drop_last() =~= self@.take(i - 1));
                assert(self@.take(i as int).last() == self@[i - 1]);
                assert(s@ =~= summary_of(self@.take(i as int)));
            }
        }
        proof {
            assert(self@.take(self.content.len() as int) =~= self@);
        }
        s
    }

    /// The removal commands for every release in the listing, in listing
    /// order.
    pub fn undeploy_commands(&self) -> (cs: Vec<Command>)
        ensures
            cs@.len() == self@.len(),
            forall|i: int|
                0 <= i < cs@.len() ==> (#[trigger] cs@[i])@.program == "helm"@ && cs@[i]@.args
                    == undeploy_args_for(self@[i]),
    {
        let mut cs: Vec<Command> = Vec::new();
        let mut i: usize = 0;
        while i < self.content.len()
            invariant
                i <= self.content.len(),
                cs@.len() == i,
                forall|j: int|
                    0 <= j < i ==> (#[trigger] cs@[j])@.program == "helm"@ && cs@[j]@.args
                        == undeploy_args_for(self@[j]),
            decreases self.content.len() - i,
        {
            let item = &self.content[i];
            proof {
                assert(item.deep_view() == self@[i as int]);
            }
            cs.push(create_undeploy(item));
            i = i + 1;
        }
        cs
    }
}

// ---------------------------------------------------------------------------
// The reconciliation engine.
// ---------------------------------------------------------------------------

/// Build the chart tool invocation that lists the releases deployed in one
/// namespace, as a YAML document.
pub fn create_list_releases_in_namespace(namespace: &str) -> (c: Command)
    ensures
        c@.program == "helm"@,
        c@.args == seq!["list"@, "--namespace"@, namespace@, "-o"@, "yaml"@],
{
    let mut command = Command::new("helm");
    command.arg("list".to_owned());
    command.arg_pair("--namespace".to_owned(), namespace.to_owned());
    command.arg_pair("-o".to_owned(), "yaml".to_owned());
    proof {
        assert(command@.args =~= seq!["list"@, "--namespace"@, namespace@, "-o"@, "yaml"@]);
    }
    command
}

/// Build the chart tool invocation that lists the releases deployed in every
/// namespace, as a YAML document.
pub fn create_list_releases_in_all_namespace() -> (c: Command)
    ensures
        c@.program == "helm"@,
        c@.args == seq!["list"@, "-A"@, "-o"@, "yaml"@],
{
    let mut command = Command::new("helm");
    command.arg("list".to_owned());
    command.arg("-A".to_owned());
    command.arg_pair("-o".to_owned(), "yaml".to_owned());
    proof {
        assert(command@.args =~= seq!["list"@, "-A"@, "-o"@, "yaml"@]);
    }
    command
}

/// The declared identities of a single-namespace cleanup: each declared name
/// paired with the namespace under reconciliation.
pub open spec fn declared_in_namespace(names: Seq<Seq<char>>, namespace: Seq<char>) -> Seq<
    ReleaseId,
> {
    names.map_values(|n: Seq<char>| (n, namespace))
}

fn declared_releases(names: &Vec<String>, namespace: &str) -> (r: Releases)
    ensures
        r@ == declared_in_namespace(names.deep_view(), namespace@),
{
    let mut content: Vec<Release> = Vec::new();
    let mut i: usize = 0;
    while i < names.len()
        invariant
            i <= names.len(),
            content.deep_view() =~= declared_in_namespace(
                names.deep_view(),
                namespace@,
            ).take(i as int),
        decreases names.len() - i,
    {
        let ghost before = content.deep_view();
        let pair = (names[i].clone(), namespace.to_owned());
        proof {
            assert(pair.deep_view() == declared_in_namespace(names.deep_view(), namespace@)[i as int]);
        }
        content.push(pair);
        i = i + 1;
        proof {
            assert(content.deep_view() =~= before.push(
                declared_in_namespace(names.deep_view(), namespace@)[i - 1],
            ));
            assert(content.deep_view() =~= declared_in_namespace(
                names.deep_view(),
                namespace@,
            ).take(i as int));
        }
    }
    proof {
        assert(declared_in_namespace(names.deep_view(), namespace@).take(names.len() as int)
            =~= declared_in_namespace(names.deep_view(), namespace@));
    }
    Releases { content }
}

/// What one cleanup run decides, once the inventory parsed.
pub enum CleanupAction {
    /// Nothing is orphaned: nothing is removed and nobody is prompted.
    Noop,
    /// The orphaned releases, a rendering of them for the confirmation
    /// prompt, whether the user must confirm before anything runs, and the
    /// removal command for each orphaned release, in order.
    Undeploy { orphaned: Releases, summary: String, needs_confirmation: bool, commands: Vec<
        Command,
    > },
}

/// What a cleanup decision owes for a given orphaned set: a no-op exactly
/// when nothing is orphaned, and otherwise the removal commands, one per
/// orphaned release and in order, gated on confirmation exactly when the
/// skip-confirmation switch is off.
pub open spec fn cleanup_decision(
    orphaned: Seq<ReleaseId>,
    skip_confirmation: bool,
    a: CleanupAction,
) -> bool {
    if orphaned.len() == 0 {
        a is Noop
    } else {
        a matches CleanupAction::Undeploy { orphaned: o, summary, needs_confirmation, commands }
            && o@ == orphaned && summary@ == summary_of(orphaned) && needs_confirmation
            == !skip_confirmation && commands@.len() == orphaned.len() && forall|i: int|
            0 <= i < orphaned.len() ==> (#[trigger] commands@[i])@.program == "helm"@
                && commands@[i]@.args == undeploy_args_for(orphaned[i])
    }
}

fn decide_cleanup(orphaned: Releases, skip_confirmation: bool) -> (a: CleanupAction)
    ensures
        cleanup_decision(orphaned@, skip_confirmation, a),
{
    if orphaned.len() == 0 {
        CleanupAction::Noop
    } else {
        let summary = orphaned.summary();
        let commands = orphaned.undeploy_commands();
        CleanupAction::Undeploy {
            orphaned,
            summary,
            needs_confirmation: !skip_confirmation,
            commands,
        }
    }
}

/// The exact outcome a cleanup run owes: the dedicated error when the
/// inventory is unparsable, and otherwise the decision for the orphaned set
/// computed from the listing and the declared side.
pub open spec fn cleanup_outcome(
    inv: RawInventoryView,
    orphaned: Seq<ReleaseId>,
    skip_confirmation: bool,
    r: Result<CleanupAction, Error>,
) -> bool {
    match inv {
        RawInventoryView::Malformed => r matches Err(e) && e matches
            Error::CouldNotFigureOutReleaseName,
        _ => r matches Ok(a) && cleanup_decision(orphaned, skip_confirmation, a),
    }
}

/// Reconcile one namespace: parse the inventory listing captured from the
/// external tool, pair every declared name with the namespace, and decide
/// what to remove. The caller captures the listing, supplies the declared
/// names (the context directory's subdirectory names), prompts if asked to,
/// and runs the removal commands in order, stopping at the first failure.
pub fn cleanup_namespace(
    namespace: &str,
    inventory_output: &str,
    declared_names: &Vec<String>,
    skip_confirmation: bool,
) -> (r: Result<CleanupAction, Error>)
    ensures
        cleanup_outcome(
            inventory_of(inventory_output@),
            seq_diff(
                inventory_identities(inventory_of(inventory_output@)),
                declared_in_namespace(declared_names.deep_view(), namespace@),
            ),
            skip_confirmation,
            r,
        ),
{
    let currently_released = match Releases::parse(inventory_output) {
        Ok(rs) => rs,
        Err(e) => {
            return Err(e);
        },
    };
    let defined_releases = declared_releases(declared_names, namespace);
    let difference = currently_released.difference(&defined_releases);
    Ok(decide_cleanup(difference, skip_confirmation))
}

/// Reconcile every namespace at once: as [`cleanup_namespace`], except that
/// the declared side carries no namespace information, so a deployed
/// release is matched against the declared names by name alone, whatever
/// namespace it is in.
pub fn cleanup_all_namespaces(
    inventory_output: &str,
    declared_names: &Vec<String>,
    skip_confirmation: bool,
) -> (r: Result<CleanupAction, Error>)
    ensures
        cleanup_outcome(
            inventory_of(inventory_output@),
            seq_diff_by_name(
                inventory_identities(inventory_of(inventory_output@)),
                declared_names.deep_view(),
            ),
            skip_confirmation,
            r,
        ),
{
    let currently_released = match Releases::parse(inventory_output) {
        Ok(rs) => rs,
        Err(e) => {
            return Err(e);
        },
    };
    let difference = currently_released.difference_by_name(declared_names);
    Ok(decide_cleanup(difference, skip_confirmation))
}

// ---------------------------------------------------------------------------
// What the reconciliation guarantees.
// ---------------------------------------------------------------------------

/// The diff characterizes the orphaned set: it holds no identity that is
/// declared, it holds every deployed identity that is not declared, and when
/// the deployed listing repeats no identity, neither does the diff — every
/// qualifying identity appears exactly once.
pub proof fn lemma_difference_characterizes_orphans(a: Seq<ReleaseId>, d: Seq<ReleaseId>)
    ensures
        forall|x: ReleaseId| #[trigger]
            seq_diff(a, d).contains(x) ==> a.contains(x) && !d.contains(x),
        forall|x: ReleaseId| a.contains(x) && !d.contains(x) ==> seq_diff(a, d).contains(x),
        a.no_duplicates() ==> seq_diff(a, d).no_duplicates(),
    decreases a.len(),
{
    if a.len() == 0 {
    } else {
        let prefix = a.drop_last();
        let rest = seq_diff(prefix, d);
        let s = seq_diff(a, d);
        lemma_difference_characterizes_orphans(prefix, d);

        assert forall|x: ReleaseId| #[trigger] s.contains(x) implies a.contains(x) && !d.contains(
            x,
        ) by {
            let k = choose|k: int| 0 <= k < s.len() && s[k] == x;
            if d.contains(a.last()) || k < rest.len() {
                assert(rest[k] == x);
                assert(rest.contains(x));
                let j = choose|j: int| 0 <= j < prefix.len() && prefix[j] == x;
                assert(a[j] == x);
            } else {
                assert(x == a.last());
                assert(a[a.len() - 1] == x);
            }
        }

        assert forall|x: ReleaseId| a.contains(x) && !d.contains(x) implies s.contains(x) by {
            let j = choose|j: int| 0 <= j < a.len() && a[j] == x;
            if j < a.len() - 1 {
                assert(prefix[j] == x);
                assert(prefix.contains(x));
                assert(rest.contains(x));
                let k = choose|k: int| 0 <= k < rest.len() && rest[k] == x;
                assert(s[k] == x);
            } else {
                assert(s[s.len() - 1] == x);
            }
        }

        if a.no_duplicates() {
            assert(prefix.no_duplicates()) by {
                assert forall|i: int, j: int| 0 <= i < j < prefix.len() implies prefix[i]
                    != prefix[j] by {
                    assert(a[i] == prefix[i] && a[j] == prefix[j]);
                }
            }
            if !d.contains(a.last()) {
                if rest.contains(a.last()) {
                    assert(prefix.contains(a.last()));
                    let j = choose|j: int| 0 <= j < prefix.len() && prefix[j] == a.last();
                    assert(a[j] == a[a.len() - 1]);
                    assert(false);
                }
                assert forall|i: int, j: int| 0 <= i < j < s.len() implies s[i] != s[j] by {
                    if j < rest.len() {
                        assert(s[i] == rest[i] && s[j] == rest[j]);
                    } else {
                        assert(s[i] == rest[i] && s[j] == a.last());
                        assert(rest.contains(rest[i]));
                    }
                }
            }
        }
    }
}

/// The deployed set that remains once a completed cleanup removed the
/// orphaned releases: exactly the deployed identities that are declared, in
/// listing order.
pub open spec fn remaining_after_cleanup(a: Seq<ReleaseId>, d: Seq<ReleaseId>) -> Seq<ReleaseId>
    decreases a.len(),
{
    if a.len() == 0 {
        a
    } else {
        let rest = remaining_after_cleanup(a.drop_last(), d);
        if d.contains(a.last()) {
            rest.push(a.last())
        } else {
            rest
        }
    }
}

/// Reconciliation is idempotent: diffing what a completed cleanup left
/// deployed against the same declared set orphans nothing.
pub proof fn lemma_cleanup_idempotent(a: Seq<ReleaseId>, d: Seq<ReleaseId>)
    ensures
        seq_diff(remaining_after_cleanup(a, d), d) == Seq::<ReleaseId>::empty(),
    decreases a.len(),
{
    if a.len() == 0 {
        assert(remaining_after_cleanup(a, d) =~= Seq::<ReleaseId>::empty());
    } else {
        let prefix = a.drop_last();
        lemma_cleanup_idempotent(prefix, d);
        let rest = remaining_after_cleanup(prefix, d);
        if d.contains(a.last()) {
            let kept = rest.push(a.last());
            assert(kept.drop_last() =~= rest);
            assert(seq_diff(kept, d) == seq_diff(rest, d));
        }
    }
}

/// A cleanup with nothing orphaned is a no-op: it decides [`CleanupAction::Noop`],
/// so it produces no removal command and asks for no confirmation.
pub proof fn lemma_noop_cleanup(
    orphaned: Seq<ReleaseId>,
    skip_confirmation: bool,
    a: CleanupAction,
)
    requires
        cleanup_decision(orphaned, skip_confirmation, a),
        orphaned.len() == 0,
    ensures
        a is Noop,
{
}

/// Running a cleanup again right after a completed one, with no outside
/// change to the cluster or the declarations, decides a no-op.
pub proof fn lemma_second_cleanup_is_noop(
    a: Seq<ReleaseId>,
    d: Seq<ReleaseId>,
    skip_confirmation: bool,
    second: CleanupAction,
)
    requires
        cleanup_decision(seq_diff(remaining_after_cleanup(a, d), d), skip_confirmation, second),
    ensures
        second is Noop,
{
    lemma_cleanup_idempotent(a, d);
}

} // verus!


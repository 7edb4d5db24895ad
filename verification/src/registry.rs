//! The repository registry: the entries a run works on, how they are loaded
//! from a parsed configuration and how a selector narrows them.

use crate::report::{Channel, Emission, EmissionView, Style};
use vstd::prelude::*;
use vstd::string::*;

verus! {

/// One configured repository: a short alias and the directory in which git
/// commands for it are executed.
#[derive(Debug, PartialEq, Eq)]
pub struct Repo {
    pub alias: String,
    pub path: String,
}

/// The mathematical content of a [`Repo`].
pub struct RepoView {
    pub alias: Seq<char>,
    pub path: Seq<char>,
}

impl View for Repo {
    type V = RepoView;

    open spec fn view(&self) -> RepoView {
        RepoView { alias: self.alias@, path: self.path@ }
    }
}

impl Repo {
    /// Builds an entry from an alias and a path, both kept verbatim.
    pub fn new(alias: &str, path: &str) -> (repo: Self)
        ensures
            repo@ == (RepoView { alias: alias@, path: path@ }),
    {
        Self { alias: alias.to_owned(), path: path.to_owned() }
    }
}

impl Clone for Repo {
    fn clone(&self) -> (copy: Self)
        ensures
            copy@ == self@,
    {
        Self { alias: self.alias.clone(), path: self.path.clone() }
    }
}

/// The entries of a parsed configuration: alias and path, in the order in
/// which they were inserted.
pub type Entries = Seq<(Seq<char>, Seq<char>)>;

/// No alias occurs twice among `entries`.
pub open spec fn keys_distinct(entries: Entries) -> bool {
    forall|i: int, j: int| 0 <= i < j < entries.len() ==> entries[i].0 != entries[j].0
}

/// Some entry of `entries` is keyed by `alias`.
pub open spec fn has_key(entries: Entries, alias: Seq<char>) -> bool {
    exists|i: int| 0 <= i < entries.len() && #[trigger] entries[i].0 == alias
}

/// The position of the first entry keyed by `alias`; meaningful only where
/// `has_key` holds.
pub open spec fn key_position(entries: Entries, alias: Seq<char>) -> int {
    choose|i: int| 0 <= i < entries.len() && #[trigger] entries[i].0 == alias
}

/// `entries` after `alias` was bound to `path`: an existing binding is
/// replaced where it stands, a new one goes to the end.
pub open spec fn bound(entries: Entries, alias: Seq<char>, path: Seq<char>) -> Entries {
    if has_key(entries, alias) {
        entries.update(key_position(entries, alias), (alias, path))
    } else {
        entries.push((alias, path))
    }
}

/// The content of a vector of alias and path pairs.
pub open spec fn pairs_view(pairs: Seq<(String, String)>) -> Entries {
    Seq::new(pairs.len(), |i: int| (pairs[i].0@, pairs[i].1@))
}

/// Binds `alias` to `path` in a vector whose keys are distinct.
fn bind(pairs: &mut Vec<(String, String)>, alias: String, path: String)
    requires
        keys_distinct(pairs_view(old(pairs)@)),
    ensures
        pairs_view(final(pairs)@) == bound(pairs_view(old(pairs)@), alias@, path@),
        keys_distinct(pairs_view(final(pairs)@)),
{
    let ghost before = pairs_view(pairs@);
    let mut i: usize = 0;
    while i < pairs.len()
        invariant
            i <= pairs@.len(),
            pairs@ == old(pairs)@,
            before == pairs_view(pairs@),
            keys_distinct(before),
            forall|k: int| 0 <= k < i ==> before[k].0 != alias@,
        decreases pairs@.len() - i,
    {
        if pairs[i].0 == alias {
            assert(before[i as int].0 == alias@);
            pairs[i] = (alias, path);
            assert(pairs_view(pairs@) =~= bound(before, alias@, path@));
            return ;
        }
        i += 1;
    }
    pairs.push((alias, path));
}

/// A parsed configuration: a mapping from alias to path that remembers the
/// order of insertion. An alias is bound at most once.
#[derive(Debug)]
pub struct Mapping {
    entries: Vec<(String, String)>,
}

impl View for Mapping {
    type V = Entries;

    closed spec fn view(&self) -> Entries {
        pairs_view(self.entries@)
    }
}

impl Mapping {
    #[verifier::type_invariant]
    spec fn well_formed(&self) -> bool {
        keys_distinct(self@)
    }

    /// The mapping without any binding.
    pub fn new() -> (mapping: Self)
        ensures
            mapping@ == Entries::empty(),
    {
        Self { entries: Vec::new() }
    }

    /// The number of bindings.
    pub fn len(&self) -> (n: usize)
        ensures
            n == self@.len(),
    {
        self.entries.len()
    }

    /// Whether there is no binding at all.
    pub fn is_empty(&self) -> (empty: bool)
        ensures
            empty == (self@.len() == 0),
    {
        self.entries.len() == 0
    }

    /// The bindings, alias first, in the order of insertion.
    pub fn entries(&self) -> (pairs: &Vec<(String, String)>)
        ensures
            pairs_view(pairs@) == self@,
            keys_distinct(pairs_view(pairs@)),
    {
        proof {
            use_type_invariant(self);
        }
        &self.entries
    }

    /// Binds `alias` to `path`. A binding that `alias` already had is replaced
    /// where it stands; otherwise the new one becomes the last.
    pub fn insert(&mut self, alias: String, path: String)
        ensures
            final(self)@ == bound(old(self)@, alias@, path@),
            keys_distinct(final(self)@),
    {
        proof {
            use_type_invariant(&*self);
        }
        let mut pairs: Vec<(String, String)> = Vec::new();
        core::mem::swap(&mut self.entries, &mut pairs);
        bind(&mut pairs, alias, path);
        core::mem::swap(&mut self.entries, &mut pairs);
    }
}

/// The name of the configuration file. It is looked for in the directory in
/// which the program is started.
pub const CONFIG_FILE: &'static str = ".gyros.toml";

/// Why no configuration could be had.
#[derive(Debug, PartialEq, Eq)]
pub enum ConfigError {
    /// The configuration file is missing or cannot be read; the text says why.
    Unreadable(String),
    /// The configuration file does not hold a mapping from alias to path; the
    /// text says where.
    Malformed(String),
    /// The configuration names no repository.
    Empty,
}

/// The selector matched no entry of the registry.
#[derive(Debug, PartialEq, Eq)]
pub struct NotFoundError {
    pub needle: String,
}

/// A condition that ends the program before anything is dispatched.
#[derive(Debug, PartialEq, Eq)]
pub enum StartupError {
    Config(ConfigError),
    NotFound(NotFoundError),
}

/// The text shown for a configuration error.
pub open spec fn config_message(error: ConfigError) -> Seq<char> {
    match error {
        ConfigError::Unreadable(reason) => reason@,
        ConfigError::Malformed(reason) => "TOML parse error: "@ + reason@,
        ConfigError::Empty => "No repos found in "@ + CONFIG_FILE@,
    }
}

/// The text shown when `needle` matched no entry.
pub open spec fn not_found_message(needle: Seq<char>) -> Seq<char> {
    "Failed to find this repo: '"@ + needle + "' ;-;"@
}

impl ConfigError {
    /// The text to show for this error.
    pub fn message(&self) -> (text: String)
        ensures
            text@ == config_message(*self),
    {
        match self {
            ConfigError::Unreadable(reason) => reason.clone(),
            ConfigError::Malformed(reason) => {
                let mut text = String::from_str("TOML parse error: ");
                text.append(reason.as_str());
                text
            },
            ConfigError::Empty => {
                let mut text = String::from_str("No repos found in ");
                text.append(CONFIG_FILE);
                text
            },
        }
    }
}

impl NotFoundError {
    /// The text to show for this error.
    pub fn message(&self) -> (text: String)
        ensures
            text@ == not_found_message(self.needle@),
    {
        let mut text = String::from_str("Failed to find this repo: '");
        text.append(self.needle.as_str());
        text.append("' ;-;");
        text
    }
}

/// The text shown for a condition that ends the program at its start.
pub open spec fn startup_message(error: StartupError) -> Seq<char> {
    match error {
        StartupError::Config(error) => config_message(error),
        StartupError::NotFound(error) => not_found_message(error.needle@),
    }
}

impl StartupError {
    /// What is written for this error: its text, as a failure, on the error
    /// channel.
    pub fn report(&self) -> (emission: Emission)
        ensures
            emission@ == (EmissionView {
                channel: Channel::Stderr,
                style: Style::Failure,
                text: startup_message(*self),
            }),
    {
        Emission { channel: Channel::Stderr, style: Style::Failure, text: self.message() }
    }

    /// The text to show for this error.
    pub fn message(&self) -> (text: String)
        ensures
            text@ == startup_message(*self),
    {
        match self {
            StartupError::Config(error) => error.message(),
            StartupError::NotFound(error) => error.message(),
        }
    }

    /// The exit status to leave with: never zero.
    pub fn exit_code(&self) -> (code: i32)
        ensures
            code == 1,
    {
        1
    }
}

/// The place of the configuration file for a run started in `cwd`.
pub open spec fn config_location(cwd: Seq<char>) -> Seq<char> {
    cwd + "/"@ + CONFIG_FILE@
}

/// The path of the configuration file for a run started in `cwd`.
pub fn config_path(cwd: &str) -> (path: String)
    ensures
        path@ == config_location(cwd@),
{
    let mut path = String::from_str(cwd);
    path.append("/");
    path.append(CONFIG_FILE);
    path
}

/// The content of each entry of a vector of repositories, in order.
pub open spec fn repos_view(repos: Seq<Repo>) -> Seq<RepoView> {
    Seq::new(repos.len(), |i: int| repos[i]@)
}

/// The registry that a configuration stands for: one entry for each binding,
/// in the order of the bindings, alias and path unchanged.
pub open spec fn registry_of(entries: Entries) -> Seq<RepoView> {
    Seq::new(entries.len(), |i: int| RepoView { alias: entries[i].0, path: entries[i].1 })
}

/// No alias occurs twice in `registry`.
pub open spec fn unique_aliases(registry: Seq<RepoView>) -> bool {
    forall|i: int, j: int| 0 <= i < j < registry.len() ==> registry[i].alias != registry[j].alias
}

/// Some entry of `registry` goes by `alias`.
pub open spec fn has_alias(registry: Seq<RepoView>, alias: Seq<char>) -> bool {
    exists|i: int| 0 <= i < registry.len() && #[trigger] registry[i].alias == alias
}

/// The entries of `registry` whose alias is exactly `needle`, in their order.
pub open spec fn matching(registry: Seq<RepoView>, needle: Seq<char>) -> Seq<RepoView> {
    registry.filter(|entry: RepoView| entry.alias == needle)
}

/// The entries that a run works on: all of `registry`, or those that the
/// selector matches.
pub open spec fn selected(registry: Seq<RepoView>, only: Option<Seq<char>>) -> Seq<RepoView> {
    match only {
        Some(needle) => matching(registry, needle),
        None => registry,
    }
}

/// Turns a parsed configuration into the registry. A configuration without
/// any binding is refused: there would be nothing to run.
pub fn load(mapping: &Mapping) -> (loaded: Result<Vec<Repo>, ConfigError>)
    ensures
        loaded is Ok <==> mapping@.len() > 0,
        match loaded {
            Ok(repos) => {
                &&& mapping@.len() > 0
                &&& repos@.len() == mapping@.len()
                &&& repos_view(repos@) == registry_of(mapping@)
                &&& unique_aliases(repos_view(repos@))
            },
            Err(error) => mapping@.len() == 0 && error is Empty,
        },
{
    proof {
        use_type_invariant(mapping);
    }
    if mapping.entries.len() == 0 {
        return Err(ConfigError::Empty);
    }
    let mut repos: Vec<Repo> = Vec::new();
    let mut i: usize = 0;
    while i < mapping.entries.len()
        invariant
            i <= mapping.entries@.len(),
            repos@.len() == i,
            forall|k: int| 0 <= k < i ==> (#[trigger] repos@[k])@ == registry_of(mapping@)[k],
        decreases mapping.entries@.len() - i,
    {
        let entry = &mapping.entries[i];
        repos.push(Repo::new(entry.0.as_str(), entry.1.as_str()));
        i += 1;
    }
    Ok(repos)
}

/// Matching keeps the order and the entries: what it returns are exactly the
/// entries that go by `needle`, it returns something if and only if `needle`
/// is an alias of the registry, and at most one entry where aliases are
/// unique.
pub proof fn lemma_matching(registry: Seq<RepoView>, needle: Seq<char>)
    ensures
        forall|k: int|
            0 <= k < matching(registry, needle).len() ==> {
                &&& (#[trigger] matching(registry, needle)[k]).alias == needle
                &&& registry.contains(matching(registry, needle)[k])
            },
        forall|i: int|
            0 <= i < registry.len() && registry[i].alias == needle ==> matching(
                registry,
                needle,
            ).contains(#[trigger] registry[i]),
        has_alias(registry, needle) <==> matching(registry, needle).len() > 0,
        unique_aliases(registry) ==> matching(registry, needle).len() <= 1,
        unique_aliases(registry) ==> unique_aliases(matching(registry, needle)),
    decreases registry.len(),
{
    reveal(Seq::filter);
    if registry.len() > 0 {
        let front = registry.drop_last();
        let found = matching(registry, needle);
        let before = matching(front, needle);
        lemma_matching(front, needle);
        assert forall|k: int| 0 <= k < found.len() implies {
            &&& (#[trigger] found[k]).alias == needle
            &&& registry.contains(found[k])
        } by {
            if k < before.len() {
                let at = choose|at: int| 0 <= at < front.len() && front[at] == before[k];
                assert(registry[at] == found[k]);
            } else {
                assert(registry[registry.len() - 1] == found[k]);
            }
        }
        assert forall|i: int| 0 <= i < registry.len() && registry[i].alias == needle implies found.contains(
            #[trigger] registry[i],
        ) by {
            if i < front.len() {
                let at = choose|at: int| 0 <= at < before.len() && before[at] == front[i];
                assert(found[at] == registry[i]);
            } else {
                assert(found[found.len() - 1] == registry[i]);
            }
        }
        if found.len() > 0 {
            let at = choose|at: int| 0 <= at < registry.len() && registry[at] == found[0];
            assert(registry[at].alias == needle);
        }
        if unique_aliases(registry) && registry.last().alias == needle && before.len() > 0 {
            let at = choose|at: int| 0 <= at < front.len() && front[at] == before[0];
            assert(registry[at].alias == registry[registry.len() - 1].alias);
        }
    }
}

/// Narrows the registry to the entries whose alias is exactly `repo`. The
/// match is exact and sensitive to case: no entry is chosen by a part of its
/// alias. A selector that matches nothing is an error, never an empty
/// selection.
pub fn filter_repos(list_of_repos: Vec<Repo>, repo: &str) -> (found: Result<
    Vec<Repo>,
    NotFoundError,
>)
    ensures
        found is Ok <==> has_alias(repos_view(list_of_repos@), repo@),
        match found {
            Ok(repos) => {
                &&& repos@.len() > 0
                &&& repos_view(repos@) == matching(repos_view(list_of_repos@), repo@)
            },
            Err(error) => {
                &&& matching(repos_view(list_of_repos@), repo@).len() == 0
                &&& error.needle@ == repo@
            },
        },
{
    let needle = String::from_str(repo);
    let ghost registry = repos_view(list_of_repos@);
    let mut filtered: Vec<Repo> = Vec::new();
    let mut i: usize = 0;
    while i < list_of_repos.len()
        invariant
            i <= list_of_repos@.len(),
            needle@ == repo@,
            registry == repos_view(list_of_repos@),
            repos_view(filtered@) == matching(registry.take(i as int), repo@),
        decreases list_of_repos@.len() - i,
    {
        proof {
            registry.take(i as int).lemma_filter_push(
                registry[i as int],
                |entry: RepoView| entry.alias == repo@,
            );
            assert(registry.take(i as int).push(registry[i as int]) =~= registry.take(i as int + 1));
        }
        if list_of_repos[i].alias == needle {
            filtered.push(list_of_repos[i].clone());
        }
        i += 1;
    }
    proof {
        assert(registry.take(i as int) =~= registry);
        lemma_matching(registry, repo@);
    }
    if filtered.len() > 0 {
        Ok(filtered)
    } else {
        Err(NotFoundError { needle })
    }
}

/// Loads the registry and applies the selector, if there is one.
pub fn resolve(mapping: &Mapping, only: Option<&str>) -> (resolved: Result<Vec<Repo>, StartupError>)
    ensures
        resolved is Ok <==> mapping@.len() > 0 && (only matches Some(needle) ==> has_alias(
            registry_of(mapping@),
            needle@,
        )),
        match resolved {
            Ok(repos) => {
                &&& mapping@.len() > 0
                &&& repos@.len() > 0
                &&& unique_aliases(repos_view(repos@))
                &&& repos_view(repos@) == selected(
                    registry_of(mapping@),
                    match only {
                        Some(needle) => Some(needle@),
                        None => None,
                    },
                )
            },
            Err(StartupError::Config(error)) => mapping@.len() == 0 && error is Empty,
            Err(StartupError::NotFound(error)) => {
                &&& mapping@.len() > 0
                &&& only matches Some(needle)
                &&& error.needle@ == needle@
                &&& !has_alias(registry_of(mapping@), needle@)
            },
        },
{
    match load(mapping) {
        Err(error) => Err(StartupError::Config(error)),
        Ok(repos) => match only {
            None => Ok(repos),
            Some(needle) => {
                proof {
                    lemma_matching(repos_view(repos@), needle@);
                }
                match filter_repos(repos, needle) {
                    Ok(found) => Ok(found),
                    Err(error) => Err(StartupError::NotFound(error)),
                }
            },
        },
    }
}

} // verus!

//! Remoting targets and the configuration that names them.

use indexmap::IndexMap;
use vstd::prelude::*;

verus! {

/// A single remoting target.
#[derive(Debug, Clone)]
pub enum Target {
    /// A Hyper-V guest, reached through PowerShell Direct.
    Hyperv { vm_name: String, cred_path: Option<String> },
    /// A host reached over SSH.
    Ssh {
        host: String,
        user: Option<String>,
        key: Option<String>,
        port: Option<u16>,
        options: Vec<String>,
    },
    /// A WSL distribution; without a name, the default one.
    Wsl { distro: Option<String>, user: Option<String> },
}

/// What a [`Target`] says, with every text as its characters.
pub enum TargetView {
    Hyperv { vm_name: Seq<char>, cred_path: Option<Seq<char>> },
    Ssh {
        host: Seq<char>,
        user: Option<Seq<char>>,
        key: Option<Seq<char>>,
        port: Option<u16>,
        options: Seq<Seq<char>>,
    },
    Wsl { distro: Option<Seq<char>>, user: Option<Seq<char>> },
}

impl View for Target {
    type V = TargetView;

    open spec fn view(&self) -> TargetView {
        match self {
            Target::Hyperv { vm_name, cred_path } => TargetView::Hyperv {
                vm_name: vm_name@,
                cred_path: cred_path.deep_view(),
            },
            Target::Ssh { host, user, key, port, options } => TargetView::Ssh {
                host: host@,
                user: user.deep_view(),
                key: key.deep_view(),
                port: *port,
                options: options.deep_view(),
            },
            Target::Wsl { distro, user } => TargetView::Wsl {
                distro: distro.deep_view(),
                user: user.deep_view(),
            },
        }
    }
}

impl TargetView {
    /// The word for the target's type.
    pub open spec fn kind(self) -> Seq<char> {
        match self {
            TargetView::Hyperv { .. } => "hyperv"@,
            TargetView::Ssh { .. } => "ssh"@,
            TargetView::Wsl { .. } => "wsl"@,
        }
    }

    /// What tells the target from others of its type.
    pub open spec fn label(self) -> Seq<char> {
        match self {
            TargetView::Hyperv { vm_name, .. } => vm_name,
            TargetView::Ssh { host, .. } => host,
            TargetView::Wsl { distro: Some(d), .. } => d,
            TargetView::Wsl { distro: None, .. } => "(default)"@,
        }
    }
}

impl Target {
    /// `(kind, label)` for the listing.
    pub fn summary(&self) -> (res: (&'static str, &str))
        ensures
            res.0@ == self@.kind(),
            res.1@ == self@.label(),
            match self {
                Target::Hyperv { vm_name, .. } => res.0@ == "hyperv"@ && res.1@ == vm_name@,
                Target::Ssh { host, .. } => res.0@ == "ssh"@ && res.1@ == host@,
                Target::Wsl { distro: Some(d), .. } => res.0@ == "wsl"@ && res.1@ == d@,
                Target::Wsl { distro: None, .. } => res.0@ == "wsl"@ && res.1@ == "(default)"@,
            },
    {
        match self {
            Target::Hyperv { vm_name, .. } => ("hyperv", vm_name.as_str()),
            Target::Ssh { host, .. } => ("ssh", host.as_str()),
            Target::Wsl { distro, .. } => match distro {
                Some(d) => ("wsl", d.as_str()),
                None => ("wsl", "(default)"),
            },
        }
    }
}

/// Insertion-ordered hash map of the `indexmap` crate.
#[verifier::external_type_specification]
#[verifier::external_body]
#[verifier::reject_recursive_types(K)]
#[verifier::reject_recursive_types(V)]
#[verifier::reject_recursive_types(S)]
pub struct ExIndexMap<K, V, S>(indexmap::IndexMap<K, V, S>);

/// The entries of a target map in the map's own order, each name as its characters.
pub uninterp spec fn target_entries(targets: IndexMap<String, Target>) -> Seq<(Seq<char>, Target)>;

/// The configured targets by name, and the name of the active one.
#[derive(Debug)]
pub struct Config {
    pub current: Option<String>,
    pub targets: IndexMap<String, Target>,
}

/// What a [`Config`] says: the active name and the named targets in their order.
#[verifier::ext_equal]
pub struct ConfigView {
    pub current: Option<Seq<char>>,
    pub targets: Seq<(Seq<char>, TargetView)>,
}

impl View for Config {
    type V = ConfigView;

    open spec fn view(&self) -> ConfigView {
        ConfigView {
            current: self.current.deep_view(),
            targets: target_entries(self.targets).map_values(
                |e: (Seq<char>, Target)| (e.0, e.1@),
            ),
        }
    }
}

/// The target called `name`, if there is one.
pub open spec fn lookup(targets: Seq<(Seq<char>, TargetView)>, name: Seq<char>) -> Option<
    TargetView,
>
    decreases targets.len(),
{
    if targets.len() == 0 {
        None
    } else if targets.last().0 == name {
        Some(targets.last().1)
    } else {
        lookup(targets.drop_last(), name)
    }
}

/// The names of `targets` in order.
pub open spec fn names(targets: Seq<(Seq<char>, TargetView)>) -> Seq<Seq<char>> {
    targets.map_values(|e: (Seq<char>, TargetView)| e.0)
}

/// Borrowed entries as names and targets.
pub open spec fn entries_view(entries: Seq<(&String, &Target)>) -> Seq<(Seq<char>, TargetView)> {
    entries.map_values(|e: (&String, &Target)| (e.0@, e.1@))
}

/// `IndexMap::new`: a map without entries.
#[verifier::external_body]
fn no_entries() -> (res: IndexMap<String, Target>)
    ensures
        target_entries(res) == Seq::<(Seq<char>, Target)>::empty(),
{
    IndexMap::new()
}

/// `IndexMap::is_empty`: whether the map has no entry.
#[verifier::external_body]
fn has_no_entry(targets: &IndexMap<String, Target>) -> (res: bool)
    ensures
        res == (target_entries(*targets).len() == 0),
{
    targets.is_empty()
}

/// `IndexMap::iter`: each entry once, in the map's order. The map keeps one entry per name.
#[verifier::external_body]
fn all_entries(targets: &IndexMap<String, Target>) -> (res: Vec<(&String, &Target)>)
    ensures
        res@.len() == target_entries(*targets).len(),
        forall|i: int|
            0 <= i < res@.len() ==> (#[trigger] res@[i]).0@ == target_entries(*targets)[i].0
                && *res@[i].1 == target_entries(*targets)[i].1,
        forall|i: int, j: int|
            0 <= i < j < res@.len() ==> (#[trigger] res@[i]).0@ != (#[trigger] res@[j]).0@,
{
    targets.iter().collect()
}

/// `IndexMap::keys`: the name of each entry, in the map's order.
#[verifier::external_body]
fn all_names(targets: &IndexMap<String, Target>) -> (res: Vec<&String>)
    ensures
        res@.len() == target_entries(*targets).len(),
        forall|i: int| 0 <= i < res@.len() ==> (#[trigger] res@[i])@ == target_entries(*targets)[i].0,
{
    targets.keys().collect()
}

/// `IndexMap::get`: the target of the entry called `name`, or nothing if there is no such entry.
#[verifier::external_body]
fn entry_of<'a>(targets: &'a IndexMap<String, Target>, name: &str) -> (res: Option<&'a Target>)
    ensures
        match res {
            Some(t) => target_entries(*targets).contains((name@, *t)) && forall|i: int|
                0 <= i < target_entries(*targets).len() && (#[trigger] target_entries(*targets)[i]).0
                    == name@ ==> target_entries(*targets)[i].1 == *t,
            None => forall|i: int|
                0 <= i < target_entries(*targets).len() ==> (#[trigger] target_entries(*targets)[i]).0
                    != name@,
        },
{
    targets.get(name)
}

/// A lookup finds what every entry of that name holds.
pub(crate) proof fn lemma_lookup_found(
    targets: Seq<(Seq<char>, TargetView)>,
    name: Seq<char>,
    found: TargetView,
)
    requires
        exists|i: int| 0 <= i < targets.len() && (#[trigger] targets[i]).0 == name,
        forall|i: int|
            0 <= i < targets.len() && (#[trigger] targets[i]).0 == name ==> targets[i].1 == found,
    ensures
        lookup(targets, name) == Some(found),
    decreases targets.len(),
{
    if targets.last().0 != name {
        let shorter = targets.drop_last();
        let i = choose|i: int| 0 <= i < targets.len() && (#[trigger] targets[i]).0 == name;
        assert(shorter[i].0 == name);
        assert forall|j: int|
            0 <= j < shorter.len() && (#[trigger] shorter[j]).0 == name implies shorter[j].1
            == found by {
            assert(targets[j].0 == name);
        }
        lemma_lookup_found(shorter, name, found);
    }
}

/// A lookup of a name that no entry has finds nothing.
pub(crate) proof fn lemma_lookup_missing(targets: Seq<(Seq<char>, TargetView)>, name: Seq<char>)
    requires
        forall|i: int| 0 <= i < targets.len() ==> (#[trigger] targets[i]).0 != name,
    ensures
        lookup(targets, name) is None,
    decreases targets.len(),
{
    if targets.len() > 0 {
        let shorter = targets.drop_last();
        assert forall|j: int| 0 <= j < shorter.len() implies (#[trigger] shorter[j]).0 != name by {
            assert(targets[j].0 != name);
        }
        lemma_lookup_missing(shorter, name);
    }
}

impl ConfigView {
    /// No name stands for two targets.
    pub open spec fn names_distinct(self) -> bool {
        forall|i: int, j: int|
            0 <= i < j < self.targets.len() ==> (#[trigger] self.targets[i]).0 != (
            #[trigger] self.targets[j]).0
    }
}

impl Default for Config {
    /// No targets, and none of them active.
    fn default() -> (res: Config)
        ensures
            res@ == (ConfigView { current: None, targets: Seq::empty() }),
    {
        let res = Config { current: None, targets: no_entries() };
        assert(res@ =~= ConfigView { current: None, targets: Seq::empty() });
        res
    }
}

impl Config {
    /// Whether no target is configured.
    pub fn is_empty(&self) -> (res: bool)
        ensures
            res == (self@.targets.len() == 0),
    {
        has_no_entry(&self.targets)
    }

    /// The named targets in their order.
    pub fn entries(&self) -> (res: Vec<(&String, &Target)>)
        ensures
            entries_view(res@) == self@.targets,
            self@.names_distinct(),
    {
        let res = all_entries(&self.targets);
        assert(entries_view(res@) =~= self@.targets);
        assert forall|i: int, j: int| 0 <= i < j < self@.targets.len() implies (
        #[trigger] self@.targets[i]).0 != (#[trigger] self@.targets[j]).0 by {
            assert(res@[i].0@ != res@[j].0@);
        }
        res
    }

    /// The names of the targets in their order.
    pub fn names(&self) -> (res: Vec<&String>)
        ensures
            res.deep_view() == names(self@.targets),
    {
        let res = all_names(&self.targets);
        assert(res.deep_view() =~= names(self@.targets));
        res
    }

    /// The target called `name`.
    pub fn get(&self, name: &str) -> (res: Option<&Target>)
        ensures
            match res {
                Some(t) => lookup(self@.targets, name@) == Some(t@),
                None => lookup(self@.targets, name@) is None,
            },
    {
        let res = entry_of(&self.targets, name);
        proof {
            let raw = target_entries(self.targets);
            match res {
                Some(t) => {
                    let i = choose|i: int| 0 <= i < raw.len() && raw[i] == (name@, *t);
                    assert(self@.targets[i].0 == name@);
                    assert forall|j: int|
                        0 <= j < self@.targets.len() && (#[trigger] self@.targets[j]).0
                            == name@ implies self@.targets[j].1 == t@ by {
                        assert(raw[j].0 == name@);
                    }
                    lemma_lookup_found(self@.targets, name@, t@);
                },
                None => {
                    assert forall|j: int| 0 <= j < self@.targets.len() implies (
                    #[trigger] self@.targets[j]).0 != name@ by {
                        assert(raw[j].0 != name@);
                    }
                    lemma_lookup_missing(self@.targets, name@);
                },
            }
        }
        res
    }
}

/// The model of a Hyper-V target tells its VM name and credential path.
pub proof fn hyperv_model_is_the_target(vm_name: String, cred_path: Option<String>)
    ensures
        (Target::Hyperv { vm_name, cred_path })@ == (TargetView::Hyperv {
            vm_name: vm_name@,
            cred_path: cred_path.deep_view(),
        }),
{
}

/// The model of an SSH target tells its host, user, key, port and options.
pub proof fn ssh_model_is_the_target(
    host: String,
    user: Option<String>,
    key: Option<String>,
    port: Option<u16>,
    options: Vec<String>,
)
    ensures
        (Target::Ssh { host, user, key, port, options })@ == (TargetView::Ssh {
            host: host@,
            user: user.deep_view(),
            key: key.deep_view(),
            port,
            options: options.deep_view(),
        }),
{
}

/// The model of a WSL target tells its distro and user.
pub proof fn wsl_model_is_the_target(distro: Option<String>, user: Option<String>)
    ensures
        (Target::Wsl { distro, user })@ == (TargetView::Wsl {
            distro: distro.deep_view(),
            user: user.deep_view(),
        }),
{
}

/// A Hyper-V target is shown by its VM name, whatever its credential path.
pub proof fn hyperv_is_labelled_by_vm_name(vm_name: Seq<char>, cred_path: Option<Seq<char>>)
    ensures
        (TargetView::Hyperv { vm_name, cred_path }).kind() == "hyperv"@,
        (TargetView::Hyperv { vm_name, cred_path }).label() == vm_name,
{
}

/// An SSH target is shown by its host, whatever its user, key, port and options.
pub proof fn ssh_is_labelled_by_host(
    host: Seq<char>,
    user: Option<Seq<char>>,
    key: Option<Seq<char>>,
    port: Option<u16>,
    options: Seq<Seq<char>>,
)
    ensures
        (TargetView::Ssh { host, user, key, port, options }).kind() == "ssh"@,
        (TargetView::Ssh { host, user, key, port, options }).label() == host,
{
}

/// A WSL target is shown by its distro, or as the default one, whatever its user.
pub proof fn wsl_is_labelled_by_distro(distro: Seq<char>, user: Option<Seq<char>>)
    ensures
        (TargetView::Wsl { distro: Some(distro), user }).kind() == "wsl"@,
        (TargetView::Wsl { distro: Some(distro), user }).label() == distro,
        (TargetView::Wsl { distro: None, user }).kind() == "wsl"@,
        (TargetView::Wsl { distro: None, user }).label() == "(default)"@,
{
}

/// The model of a configuration tells its active name and every entry in its place.
pub proof fn config_model_is_the_config(config: Config, i: int)
    ensures
        config@.current == config.current.deep_view(),
        config@.targets.len() == target_entries(config.targets).len(),
        0 <= i < config@.targets.len() ==> config@.targets[i].0 == target_entries(
            config.targets,
        )[i].0 && config@.targets[i].1 == target_entries(config.targets)[i].1@,
{
}

/// Borrowed entries stand for their names and targets, each in its place.
pub proof fn entries_keep_their_places(entries: Seq<(&String, &Target)>, i: int)
    ensures
        entries_view(entries).len() == entries.len(),
        0 <= i < entries.len() ==> entries_view(entries)[i].0 == entries[i].0@ && entries_view(
            entries,
        )[i].1 == entries[i].1@,
{
}

/// Each target's name is told in the target's place.
pub proof fn names_keep_their_places(targets: Seq<(Seq<char>, TargetView)>, i: int)
    ensures
        names(targets).len() == targets.len(),
        0 <= i < targets.len() ==> names(targets)[i] == targets[i].0,
{
}

/// What a lookup finds is configured under that name.
pub proof fn lookup_finds_what_is_there(
    targets: Seq<(Seq<char>, TargetView)>,
    name: Seq<char>,
)
    ensures
        lookup(targets, name) matches Some(found) ==> targets.contains((name, found)),
    decreases targets.len(),
{
    if targets.len() > 0 {
        if targets.last().0 == name {
            assert(targets[targets.len() - 1] == (name, targets.last().1));
        } else {
            let shorter = targets.drop_last();
            lookup_finds_what_is_there(shorter, name);
            if lookup(targets, name) is Some {
                let found = lookup(targets, name)->0;
                let i = choose|i: int| 0 <= i < shorter.len() && shorter[i] == (name, found);
                assert(targets[i] == (name, found));
            }
        }
    }
}

/// A lookup misses no name that is configured.
pub proof fn lookup_misses_nothing(targets: Seq<(Seq<char>, TargetView)>, i: int)
    requires
        0 <= i < targets.len(),
    ensures
        lookup(targets, targets[i].0) is Some,
    decreases targets.len(),
{
    if targets.last().0 != targets[i].0 {
        assert(targets.drop_last()[i] == targets[i]);
        lookup_misses_nothing(targets.drop_last(), i);
    }
}

} // verus!

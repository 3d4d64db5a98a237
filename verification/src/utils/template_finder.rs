//! Where the template store is, and how it gets installed.

use crate::models::entry::{Entry, EntryView, PathKind};
use crate::utils::project::{first_marked_is_nearest, nearest_marked, nearest_marked_is_first};
use vstd::prelude::*;

verus! {

/// The environment variable that overrides the template store's location.
pub const TEMPLATES_ENV: &'static str = "VIN_UI_TEMPLATES";

/// The name of a template store's directory.
pub const TEMPLATES_DIR: &'static str = "templates";

/// The name of this tool's directory under the user's configuration
/// directory.
pub const CONFIG_DIR: &'static str = "vin-ui";

/// The places where a template store may be, each as the caller found it.
/// A place that cannot even be named (no override set, no known executable,
/// no user configuration directory) is absent.
#[derive(Debug, Clone, PartialEq, Eq)]
pub struct TemplateProbe {
    /// What the override names, where one is set.
    pub override_dir: Option<Entry>,
    /// `templates` beside the running executable.
    pub beside_executable: Option<Entry>,
    /// `templates` in this tool's directory under the user's configuration
    /// directory.
    pub user_config: Option<Entry>,
    /// `templates` in the working directory and in each directory above
    /// it, nearest first; empty where the working directory is unknown.
    pub ancestors: Vec<Entry>,
}

pub ghost struct TemplateProbeView {
    pub override_dir: Option<EntryView>,
    pub beside_executable: Option<EntryView>,
    pub user_config: Option<EntryView>,
    pub ancestors: Seq<EntryView>,
}

impl View for TemplateProbe {
    type V = TemplateProbeView;

    open spec fn view(&self) -> TemplateProbeView {
        TemplateProbeView {
            override_dir: self.override_dir.deep_view(),
            beside_executable: self.beside_executable.deep_view(),
            user_config: self.user_config.deep_view(),
            ancestors: self.ancestors.deep_view(),
        }
    }
}

/// Where the template store is taken to be.
#[derive(Debug, Clone, PartialEq, Eq)]
pub struct TemplateStore {
    pub path: String,
    /// Set where no store was found: `path` is then where one would be
    /// installed, and nothing is there yet.
    pub needs_install: bool,
}

pub ghost struct TemplateStoreView {
    pub path: Seq<char>,
    pub needs_install: bool,
}

impl View for TemplateStore {
    type V = TemplateStoreView;

    open spec fn view(&self) -> TemplateStoreView {
        TemplateStoreView { path: self.path@, needs_install: self.needs_install }
    }
}

/// What installing the template store comes to.
#[derive(Debug, Clone, PartialEq, Eq)]
pub struct TemplateInstall {
    /// Where the store is once installed.
    pub dest: String,
    /// The tree to copy there, or nothing where there is nothing to do.
    pub copy_from: Option<String>,
}

pub ghost struct TemplateInstallView {
    pub dest: Seq<char>,
    pub copy_from: Option<Seq<char>>,
}

impl View for TemplateInstall {
    type V = TemplateInstallView;

    open spec fn view(&self) -> TemplateInstallView {
        TemplateInstallView { dest: self.dest@, copy_from: self.copy_from.deep_view() }
    }
}

/// Why the template store cannot be installed.
#[derive(Debug, Clone, Copy, PartialEq, Eq, Structural)]
pub enum TemplateInstallError {
    /// There is no user configuration directory to install into.
    NoConfigDirectory,
    /// The destination directory could not be created.
    CreateFailed,
    /// The tree could not be copied.
    CopyFailed,
}

/// What came of carrying out a [`TemplateInstall`].
#[derive(Debug, Clone, Copy, PartialEq, Eq, Structural)]
pub enum Carried {
    /// All there was to do has been done.
    Done,
    /// The destination directory could not be created.
    CreateFailed,
    /// The destination is there; the tree could not be copied into it.
    CopyFailed,
}

impl TemplateInstallView {
    /// How the installation ends: with the destination's path, unless
    /// carrying it out failed.
    pub open spec fn concluded(self, carried: Carried) -> Result<Seq<char>, TemplateInstallError> {
        match carried {
            Carried::Done => Ok(self.dest),
            Carried::CreateFailed => Err(TemplateInstallError::CreateFailed),
            Carried::CopyFailed => Err(TemplateInstallError::CopyFailed),
        }
    }
}

impl TemplateInstall {
    /// Ends the installation: the path of the store, or the error for what
    /// the caller could not do.
    pub fn conclude(self, carried: Carried) -> (result: Result<String, TemplateInstallError>)
        ensures
            match result {
                Ok(path) => self@.concluded(carried) == Ok::<_, TemplateInstallError>(path@),
                Err(error) => self@.concluded(carried) == Err::<Seq<char>, _>(error),
            },
    {
        match carried {
            Carried::Done => Ok(self.dest),
            Carried::CreateFailed => Err(TemplateInstallError::CreateFailed),
            Carried::CopyFailed => Err(TemplateInstallError::CopyFailed),
        }
    }
}

/// What to copy from one directory of a tree: the directories to go down
/// into, then the files, each group in the order of the listing.
#[derive(Debug, Clone, PartialEq, Eq)]
pub struct CopyPlan {
    pub directories: Vec<String>,
    pub files: Vec<String>,
}

/// For each entry, whether it is a directory.
pub open spec fn directory_flags(entries: Seq<EntryView>) -> Seq<bool> {
    Seq::new(entries.len(), |i: int| entries[i].is_dir())
}

/// The nearest `templates` directory on the way up from the working
/// directory.
pub open spec fn dev_templates(ancestors: Seq<EntryView>) -> Option<Seq<char>> {
    match nearest_marked(directory_flags(ancestors)) {
        Some(i) => Some(ancestors[i].path),
        None => None,
    }
}

/// Whether the place is there and is a directory.
pub open spec fn is_store(place: Option<EntryView>) -> bool {
    place matches Some(entry) && entry.is_dir()
}

/// The template store for what was found, in the order of preference: the
/// override, the executable's neighbour, the user's configuration, the
/// nearest on the way up from the working directory. The first directory
/// wins. Without any, the answer is the place in the user's configuration
/// (or `./templates` where there is no such place), marked as in need of
/// installing.
pub open spec fn resolved(probe: TemplateProbeView) -> TemplateStoreView {
    if is_store(probe.override_dir) {
        TemplateStoreView { path: probe.override_dir->0.path, needs_install: false }
    } else if is_store(probe.beside_executable) {
        TemplateStoreView { path: probe.beside_executable->0.path, needs_install: false }
    } else if is_store(probe.user_config) {
        TemplateStoreView { path: probe.user_config->0.path, needs_install: false }
    } else if dev_templates(probe.ancestors) is Some {
        TemplateStoreView { path: dev_templates(probe.ancestors)->0, needs_install: false }
    } else {
        TemplateStoreView {
            path: match probe.user_config {
                Some(entry) => entry.path,
                None => "./templates"@,
            },
            needs_install: true,
        }
    }
}

/// What installing comes to: the nearest development tree is copied to the
/// destination unless something is there already.
pub open spec fn installed(
    ancestors: Seq<EntryView>,
    destination: EntryView,
) -> TemplateInstallView {
    TemplateInstallView {
        dest: destination.path,
        copy_from: if destination.kind == PathKind::Missing {
            dev_templates(ancestors)
        } else {
            None
        },
    }
}

/// The names of the directories among the entries, or of the others, in
/// order.
pub open spec fn names_of(entries: Seq<EntryView>, directories: bool) -> Seq<Seq<char>>
    decreases entries.len(),
{
    if entries.len() == 0 {
        Seq::empty()
    } else if entries.last().is_dir() == directories {
        names_of(entries.drop_last(), directories).push(entries.last().path)
    } else {
        names_of(entries.drop_last(), directories)
    }
}

/// A store is either one of the places probed, found to be a directory, or
/// it needs installing; and it needs installing exactly where no place
/// probed is a directory.
pub proof fn store_is_found_or_needs_install(probe: TemplateProbeView)
    ensures
        resolved(probe).needs_install <==> !is_store(probe.override_dir) && !is_store(
            probe.beside_executable,
        ) && !is_store(probe.user_config) && forall|i: int|
            0 <= i < probe.ancestors.len() ==> !probe.ancestors[i].is_dir(),
        !resolved(probe).needs_install ==> {
            ||| is_store(probe.override_dir) && resolved(probe).path == probe.override_dir->0.path
            ||| is_store(probe.beside_executable) && resolved(probe).path
                == probe.beside_executable->0.path
            ||| is_store(probe.user_config) && resolved(probe).path == probe.user_config->0.path
            ||| exists|i: int|
                0 <= i < probe.ancestors.len() && probe.ancestors[i].is_dir() && resolved(
                    probe,
                ).path == probe.ancestors[i].path
        },
{
    let flags = directory_flags(probe.ancestors);
    nearest_marked_is_first(flags);
    match nearest_marked(flags) {
        Some(i) => {
            assert(probe.ancestors[i].is_dir());
        },
        None => {
            assert forall|i: int| 0 <= i < probe.ancestors.len() implies !probe.ancestors[i].is_dir() by {
                assert(!flags[i]);
            }
        },
    }
}

/// A copy plan covers the listing: every entry is in it once, a directory
/// among the directories and anything else among the files.
pub proof fn copy_plan_covers_listing(entries: Seq<EntryView>)
    ensures
        names_of(entries, true).len() + names_of(entries, false).len() == entries.len(),
        forall|i: int|
            0 <= i < entries.len() ==> names_of(entries, entries[i].is_dir()).contains(
                #[trigger] entries[i].path,
            ),
        forall|directories: bool, name: Seq<char>|
            names_of(entries, directories).contains(name) ==> exists|i: int|
                0 <= i < entries.len() && entries[i].is_dir() == directories
                    && #[trigger] entries[i].path == name,
    decreases entries.len(),
{
    if entries.len() > 0 {
        let front = entries.drop_last();
        let last = entries.last();
        copy_plan_covers_listing(front);
        assert forall|i: int| 0 <= i < entries.len() implies names_of(
            entries,
            entries[i].is_dir(),
        ).contains(#[trigger] entries[i].path) by {
            let group = names_of(entries, entries[i].is_dir());
            if i < front.len() {
                assert(front[i] == entries[i]);
                let earlier = names_of(front, entries[i].is_dir());
                let at: int = choose|at: int| 0 <= at < earlier.len() && earlier[at] == entries[i].path;
                assert(group[at] == entries[i].path);
            } else {
                assert(group[group.len() - 1] == last.path);
            }
        }
        assert forall|directories: bool, name: Seq<char>|
            names_of(entries, directories).contains(name) implies exists|i: int|
            0 <= i < entries.len() && entries[i].is_dir() == directories
                && #[trigger] entries[i].path == name by {
            let group = names_of(entries, directories);
            let at: int = choose|at: int| 0 <= at < group.len() && group[at] == name;
            let earlier = names_of(front, directories);
            if at < earlier.len() {
                assert(earlier[at] == name);
                assert(earlier.contains(name));
                let i: int = choose|i: int|
                    0 <= i < front.len() && front[i].is_dir() == directories
                        && #[trigger] front[i].path == name;
                assert(entries[i] == front[i]);
            } else {
                assert(entries[entries.len() - 1].path == name);
            }
        }
    }
}

/// Finds the development template tree: the nearest `templates` directory
/// on the way up from the working directory. `ancestors` holds what was
/// found under that name in the working directory and in each directory
/// above it, nearest first.
pub fn find_dev_templates(ancestors: &Vec<Entry>) -> (found: Option<String>)
    ensures
        found.deep_view() == dev_templates(ancestors.deep_view()),
{
    let ghost flags = directory_flags(ancestors.deep_view());
    let mut i: usize = 0;
    while i < ancestors.len()
        invariant
            i <= ancestors.len(),
            flags == directory_flags(ancestors.deep_view()),
            forall|j: int| 0 <= j < i ==> !flags[j],
        decreases ancestors.len() - i,
    {
        if ancestors[i].is_dir() {
            proof {
                first_marked_is_nearest(flags, i as int);
            }
            return Some(ancestors[i].path.clone());
        }
        i += 1;
    }
    proof {
        nearest_marked_is_first(flags);
    }
    None
}

/// Whether something was found at the place and is a directory.
fn directory_at(place: &Option<Entry>) -> (yes: bool)
    ensures
        yes == is_store(place.deep_view()),
{
    match place {
        Some(entry) => entry.is_dir(),
        None => false,
    }
}

/// The path of a place that holds a store.
fn store_at(place: &Option<Entry>) -> (store: TemplateStore)
    requires
        place is Some,
    ensures
        store@ == (TemplateStoreView { path: place.deep_view()->0.path, needs_install: false }),
{
    match place {
        Some(entry) => TemplateStore { path: entry.path.clone(), needs_install: false },
        None => vstd::pervasive::unreached(),
    }
}

/// Resolves the template store from what was found at the places where one
/// may be.
pub fn get_templates_dir(probe: &TemplateProbe) -> (store: TemplateStore)
    ensures
        store@ == resolved(probe@),
{
    if directory_at(&probe.override_dir) {
        return store_at(&probe.override_dir);
    }
    if directory_at(&probe.beside_executable) {
        return store_at(&probe.beside_executable);
    }
    if directory_at(&probe.user_config) {
        return store_at(&probe.user_config);
    }
    if let Some(path) = find_dev_templates(&probe.ancestors) {
        return TemplateStore { path, needs_install: false };
    }
    let path = match &probe.user_config {
        Some(entry) => entry.path.clone(),
        None => "./templates".to_owned(),
    };
    TemplateStore { path, needs_install: true }
}

/// Plans the installation of the template store into the user's
/// configuration. `ancestors` is as for [`find_dev_templates`];
/// `destination` is the place in the user's configuration as the caller
/// found it, absent where the user has no configuration directory.
///
/// Fails exactly where there is no destination. Otherwise the development
/// tree is to be copied where one was found and nothing is at the
/// destination yet, and nothing is to be done in every other case.
pub fn install_templates(ancestors: &Vec<Entry>, destination: Option<&Entry>) -> (plan: Result<
    TemplateInstall,
    TemplateInstallError,
>)
    ensures
        destination is None ==> plan == Err::<TemplateInstall, _>(
            TemplateInstallError::NoConfigDirectory,
        ),
        destination matches Some(place) ==> plan matches Ok(install) && install@ == installed(
            ancestors.deep_view(),
            place@,
        ),
{
    let source = find_dev_templates(ancestors);
    match destination {
        None => Err(TemplateInstallError::NoConfigDirectory),
        Some(place) => {
            let copy_from = match place.kind {
                PathKind::Missing => source,
                _ => None,
            };
            Ok(TemplateInstall { dest: place.path.clone(), copy_from })
        },
    }
}

/// The names of the directories among the entries, or of the others.
fn names_among(entries: &Vec<Entry>, directories: bool) -> (names: Vec<String>)
    ensures
        names.deep_view() == names_of(entries.deep_view(), directories),
{
    let mut names: Vec<String> = Vec::new();
    let mut i: usize = 0;
    assert(entries.deep_view().take(0) =~= Seq::empty());
    assert(names.deep_view() =~= Seq::empty());
    while i < entries.len()
        invariant
            i <= entries.len(),
            names.deep_view() == names_of(entries.deep_view().take(i as int), directories),
        decreases entries.len() - i,
    {
        let ghost before = names.deep_view();
        proof {
            let upto = entries.deep_view().take(i + 1);
            assert(upto.drop_last() =~= entries.deep_view().take(i as int));
            assert(upto.last() == entries[i as int]@);
        }
        if entries[i].is_dir() == directories {
            names.push(entries[i].path.clone());
            assert(names.deep_view() =~= before.push(entries[i as int].path@));
        }
        i += 1;
    }
    assert(entries.deep_view().take(entries.len() as int) =~= entries.deep_view());
    names
}

/// Plans the copy of one directory of a tree from its listing: every entry
/// that is a directory is to be copied in turn, by the same rule, into a
/// directory of its name, and every other entry is to be copied as a file.
/// Directories come before files; within each group the listing's order
/// is kept.
pub fn copy_dir_recursively(entries: &Vec<Entry>) -> (plan: CopyPlan)
    ensures
        plan.directories.deep_view() == names_of(entries.deep_view(), true),
        plan.files.deep_view() == names_of(entries.deep_view(), false),
{
    CopyPlan { directories: names_among(entries, true), files: names_among(entries, false) }
}

} // verus!

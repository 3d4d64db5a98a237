use crate::utils::text::{has_name, str_eq};
use vstd::prelude::*;

verus! {

/// The file whose presence marks a directory as a host project's root.
pub const PROJECT_MARKER: &'static str = "package.json";

/// The nearest directory that holds the project marker, counted from the
/// start: `markers[i]` says whether the `i`-th directory on the way up holds
/// it, the start being number 0 and the filesystem root the last.
pub open spec fn nearest_marked(markers: Seq<bool>) -> Option<int>
    decreases markers.len(),
{
    if markers.len() == 0 {
        None
    } else if markers[0] {
        Some(0)
    } else {
        match nearest_marked(markers.drop_first()) {
            Some(i) => Some(i + 1),
            None => None,
        }
    }
}

/// What a walk from `start` up to the root finds, in a tree where `marked`
/// is the set of directories that hold the marker. A directory is the list
/// of names that leads to it from the root, so its ancestors are its
/// prefixes, and entry `i` of the result belongs to the ancestor `i` levels
/// above `start`.
pub open spec fn markers_above(marked: Set<Seq<Seq<char>>>, start: Seq<Seq<char>>) -> Seq<bool> {
    Seq::new((start.len() + 1) as nat, |i: int| marked.contains(start.take(start.len() - i)))
}

/// `nearest_marked` picks a marked entry with none before it, and finds
/// nothing only where nothing is marked.
pub proof fn nearest_marked_is_first(markers: Seq<bool>)
    ensures
        match nearest_marked(markers) {
            Some(i) => 0 <= i < markers.len() && markers[i] && forall|j: int|
                0 <= j < i ==> !markers[j],
            None => forall|j: int| 0 <= j < markers.len() ==> !markers[j],
        },
    decreases markers.len(),
{
    if markers.len() > 0 && !markers[0] {
        let rest = markers.drop_first();
        nearest_marked_is_first(rest);
        match nearest_marked(rest) {
            Some(i) => {
                assert forall|j: int| 0 <= j < i + 1 implies !markers[j] by {
                    if j > 0 {
                        assert(markers[j] == rest[j - 1]);
                    }
                }
            },
            None => {
                assert forall|j: int| 0 <= j < markers.len() implies !markers[j] by {
                    if j > 0 {
                        assert(markers[j] == rest[j - 1]);
                    }
                }
            },
        }
    }
}

/// An entry that is marked, with none marked before it, is the one that
/// `nearest_marked` picks.
pub proof fn first_marked_is_nearest(markers: Seq<bool>, at: int)
    requires
        0 <= at < markers.len(),
        markers[at],
        forall|j: int| 0 <= j < at ==> !markers[j],
    ensures
        nearest_marked(markers) == Some(at),
{
    nearest_marked_is_first(markers);
}

/// In a tree without a marker in the start directory or above it, no project
/// root is found.
pub proof fn unmarked_tree_has_no_root(marked: Set<Seq<Seq<char>>>, start: Seq<Seq<char>>)
    requires
        forall|depth: int| 0 <= depth <= start.len() ==> !marked.contains(#[trigger] start.take(depth)),
    ensures
        nearest_marked(markers_above(marked, start)) is None,
{
    let markers = markers_above(marked, start);
    nearest_marked_is_first(markers);
    if let Some(i) = nearest_marked(markers) {
        assert(marked.contains(start.take(start.len() - i)));
    }
}

/// With the marker in the directory `root`, a walk from any directory below
/// it (or from `root` itself) ends at `root`, however deep the start lies,
/// provided no directory between the two holds a marker of its own.
pub proof fn marked_ancestor_is_found(
    marked: Set<Seq<Seq<char>>>,
    root: Seq<Seq<char>>,
    start: Seq<Seq<char>>,
)
    requires
        root.is_prefix_of(start),
        marked.contains(root),
        forall|depth: int|
            root.len() < depth <= start.len() ==> !marked.contains(#[trigger] start.take(depth)),
    ensures
        nearest_marked(markers_above(marked, start)) == Some(start.len() - root.len()),
        start.take(start.len() - (start.len() - root.len())) == root,
{
    let markers = markers_above(marked, start);
    let at = start.len() - root.len();
    assert(start.take(start.len() - at) =~= root);
    assert forall|j: int| 0 <= j < at implies !markers[j] by {
        assert(!marked.contains(start.take(start.len() - j)));
    }
    first_marked_is_nearest(markers, at);
}

/// The package manager that the names found in a project's root stand for.
/// A Deno config wins over a Bun lockfile, that over pnpm's, that over
/// Yarn's, that over npm's; and npm is the answer without any.
pub open spec fn package_manager_of(names: Seq<Seq<char>>) -> Seq<char> {
    if names.contains("deno.json"@) || names.contains("deno.jsonc"@) {
        "deno"@
    } else if names.contains("bun.lockb"@) {
        "bun"@
    } else if names.contains("pnpm-lock.yaml"@) {
        "pnpm"@
    } else if names.contains("yarn.lock"@) {
        "yarn"@
    } else if names.contains("package-lock.json"@) {
        "npm"@
    } else {
        "npm"@
    }
}

/// The subcommand by which a package manager adds packages to a project.
pub open spec fn install_verb(package_manager: Seq<char>) -> Seq<char> {
    if package_manager == "yarn"@ || package_manager == "bun"@ || package_manager == "deno"@ {
        "add"@
    } else {
        "install"@
    }
}

/// The verb mapping covers the detector: whatever the names are, the package
/// manager is one of five, and each of the five has its verb, `add` for
/// Deno, Bun and Yarn and `install` for pnpm and npm.
pub proof fn every_manager_has_its_verb(names: Seq<Seq<char>>)
    ensures
        ({
            let manager = package_manager_of(names);
            &&& manager == "deno"@ || manager == "bun"@ || manager == "pnpm"@ || manager
                == "yarn"@ || manager == "npm"@
            &&& install_verb(manager) == "add"@ <==> manager == "deno"@ || manager == "bun"@
                || manager == "yarn"@
            &&& install_verb(manager) == "install"@ <==> manager == "pnpm"@ || manager == "npm"@
        }),
{
    reveal_strlit("deno");
    reveal_strlit("bun");
    reveal_strlit("pnpm");
    reveal_strlit("yarn");
    reveal_strlit("npm");
    reveal_strlit("add");
    reveal_strlit("install");
    let manager = package_manager_of(names);
    if manager == "pnpm"@ {
        assert(manager[0] == 'p');
    }
    if manager == "npm"@ {
        assert(manager[0] == 'n');
    }
    assert("add"@.len() != "install"@.len());
}

/// Finds the project root on the way up from a starting directory: the
/// index of the nearest directory that holds the marker, where `markers[i]`
/// is what was found `i` levels above the start.
pub fn find_project_root(markers: &Vec<bool>) -> (found: Option<usize>)
    ensures
        match found {
            Some(i) => nearest_marked(markers@) == Some(i as int),
            None => nearest_marked(markers@) is None,
        },
        match found {
            Some(i) => i < markers.len() && markers[i as int] && forall|j: int|
                0 <= j < i ==> !markers[j],
            None => forall|j: int| 0 <= j < markers.len() ==> !markers[j],
        },
{
    let mut i: usize = 0;
    while i < markers.len()
        invariant
            i <= markers.len(),
            forall|j: int| 0 <= j < i ==> !markers[j],
        decreases markers.len() - i,
    {
        if markers[i] {
            proof {
                first_marked_is_nearest(markers@, i as int);
            }
            return Some(i);
        }
        i += 1;
    }
    proof {
        nearest_marked_is_first(markers@);
    }
    None
}

/// Classifies a project's package manager from the names of the entries in
/// its root directory.
pub fn get_package_manager(entries: &Vec<String>) -> (manager: &'static str)
    ensures
        manager@ == package_manager_of(entries.deep_view()),
{
    if has_name(entries, "deno.json") || has_name(entries, "deno.jsonc") {
        "deno"
    } else if has_name(entries, "bun.lockb") {
        "bun"
    } else if has_name(entries, "pnpm-lock.yaml") {
        "pnpm"
    } else if has_name(entries, "yarn.lock") {
        "yarn"
    } else if has_name(entries, "package-lock.json") {
        "npm"
    } else {
        "npm"
    }
}

/// The subcommand that makes `package_manager` add packages.
pub fn get_install_command(package_manager: &str) -> (verb: &'static str)
    ensures
        verb@ == install_verb(package_manager@),
{
    if str_eq(package_manager, "yarn") || str_eq(package_manager, "bun") || str_eq(
        package_manager,
        "deno",
    ) {
        "add"
    } else {
        "install"
    }
}

} // verus!

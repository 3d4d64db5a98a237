use vin_ui::utils::project::{
    find_project_root, get_install_command, get_package_manager, PROJECT_MARKER,
};

fn names(list: &[&str]) -> Vec<String> {
    list.iter().map(|name| name.to_string()).collect()
}

#[test]
fn project_root_is_the_start_when_it_holds_the_marker() {
    assert_eq!(find_project_root(&vec![true, false, false]), Some(0));
}

#[test]
fn project_root_is_the_nearest_marked_ancestor() {
    assert_eq!(find_project_root(&vec![false, false, true, true, false]), Some(2));
}

#[test]
fn project_root_is_the_same_from_every_depth_below_it() {
    // A marker two levels below the filesystem root, seen from starts that
    // lie zero to three levels below the marked directory.
    for below in 0..4usize {
        let mut markers = vec![false; below];
        markers.extend([true, false, false]);
        assert_eq!(find_project_root(&markers), Some(below));
    }
}

#[test]
fn project_root_is_not_found_without_a_marker() {
    assert_eq!(find_project_root(&vec![false, false, false, false]), None);
}

#[test]
fn project_root_is_not_found_without_directories() {
    assert_eq!(find_project_root(&Vec::new()), None);
}

#[test]
fn project_marker_is_package_json() {
    assert_eq!(PROJECT_MARKER, "package.json");
}

#[test]
fn bun_lockfile_wins_over_npm_lockfile() {
    let root = names(&["package.json", "package-lock.json", "bun.lockb", "src"]);
    assert_eq!(get_package_manager(&root), "bun");
}

#[test]
fn deno_config_wins_over_every_lockfile() {
    let root = names(&["yarn.lock", "pnpm-lock.yaml", "bun.lockb", "package-lock.json", "deno.json"]);
    assert_eq!(get_package_manager(&root), "deno");
    let root = names(&["bun.lockb", "deno.jsonc"]);
    assert_eq!(get_package_manager(&root), "deno");
}

#[test]
fn pnpm_lockfile_wins_over_yarn_and_npm() {
    let root = names(&["package-lock.json", "yarn.lock", "pnpm-lock.yaml"]);
    assert_eq!(get_package_manager(&root), "pnpm");
}

#[test]
fn yarn_lockfile_wins_over_npm() {
    let root = names(&["package-lock.json", "yarn.lock"]);
    assert_eq!(get_package_manager(&root), "yarn");
}

#[test]
fn npm_is_detected_by_its_lockfile_and_by_default() {
    assert_eq!(get_package_manager(&names(&["package-lock.json"])), "npm");
    assert_eq!(get_package_manager(&names(&["package.json", "README.md"])), "npm");
    assert_eq!(get_package_manager(&Vec::new()), "npm");
}

#[test]
fn lockfile_names_must_match_exactly() {
    // Neither a prefix nor a longer name is a signature.
    let root = names(&["bun.lock", "yarn.lock.bak", "Deno.json", "xbun.lockb"]);
    assert_eq!(get_package_manager(&root), "npm");
}

#[test]
fn install_verb_is_add_for_yarn_bun_and_deno() {
    assert_eq!(get_install_command("yarn"), "add");
    assert_eq!(get_install_command("bun"), "add");
    assert_eq!(get_install_command("deno"), "add");
}

#[test]
fn install_verb_is_install_for_npm_pnpm_and_unknown() {
    assert_eq!(get_install_command("npm"), "install");
    assert_eq!(get_install_command("pnpm"), "install");
    assert_eq!(get_install_command("cargo"), "install");
    assert_eq!(get_install_command(""), "install");
    assert_eq!(get_install_command("yarn2"), "install");
}

#[test]
fn every_detected_manager_has_its_verb() {
    let cases = [
        (vec!["deno.json"], "deno", "add"),
        (vec!["bun.lockb"], "bun", "add"),
        (vec!["pnpm-lock.yaml"], "pnpm", "install"),
        (vec!["yarn.lock"], "yarn", "add"),
        (vec!["package-lock.json"], "npm", "install"),
        (vec![], "npm", "install"),
    ];
    for (root, manager, verb) in cases {
        let detected = get_package_manager(&names(&root));
        assert_eq!(detected, manager);
        assert_eq!(get_install_command(detected), verb);
    }
}

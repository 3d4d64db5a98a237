use vin_ui::commands::add::{Directory, InstallError};
use vin_ui::commands::init::{init_components_directory, InitStep, ProjectLayout, BASIC_UTILS};
use vin_ui::commands::list::{list_components, Available, Listed, Listing};
use vin_ui::models::component::ComponentConfig;
use vin_ui::models::entry::PathKind;

fn config(dependencies: Option<&[&str]>, utils: Option<&[&str]>) -> ComponentConfig {
    let list = |names: &[&str]| names.iter().map(|n| n.to_string()).collect::<Vec<String>>();
    ComponentConfig {
        description: None,
        dependencies: dependencies.map(list),
        utils: utils.map(list),
        additional_files: None,
    }
}

fn plain(name: &str) -> Listed {
    Listed { name: name.to_string(), dependencies: None, utils: None }
}

#[test]
fn init_fails_without_a_project() {
    assert_eq!(init_components_directory(None), Err(InstallError::ProjectNotFound));
}

#[test]
fn init_of_a_bare_project_creates_everything() {
    let layout = ProjectLayout { components: false, ui: false, lib: false };
    assert_eq!(
        init_components_directory(Some(layout)),
        Ok(vec![
            InitStep::Create(Directory::Components),
            InitStep::Create(Directory::Ui),
            InitStep::Create(Directory::Lib),
            InitStep::WriteBasicUtils,
        ])
    );
}

#[test]
fn init_of_a_prepared_project_only_reports() {
    let layout = ProjectLayout { components: true, ui: true, lib: true };
    assert_eq!(init_components_directory(Some(layout)), Ok(vec![InitStep::Existing(Directory::Ui)]));
}

#[test]
fn init_leaves_an_existing_lib_alone() {
    let layout = ProjectLayout { components: true, ui: false, lib: true };
    assert_eq!(init_components_directory(Some(layout)), Ok(vec![InitStep::Create(Directory::Ui)]));
}

#[test]
fn init_gives_a_new_lib_its_utilities() {
    let layout = ProjectLayout { components: true, ui: true, lib: false };
    assert_eq!(
        init_components_directory(Some(layout)),
        Ok(vec![
            InitStep::Existing(Directory::Ui),
            InitStep::Create(Directory::Lib),
            InitStep::WriteBasicUtils,
        ])
    );
}

#[test]
fn basic_utils_define_cn() {
    assert!(BASIC_UTILS.starts_with("import { type ClassValue, clsx } from \"clsx\";\n"));
    assert!(BASIC_UTILS.contains("export function cn(...inputs: ClassValue[]) {\n  return twMerge(clsx(inputs));\n}\n"));
    assert_eq!(BASIC_UTILS.lines().count(), 9);
}

#[test]
fn listing_without_a_store_says_so() {
    assert_eq!(list_components(PathKind::Missing, &Vec::new()), Listing::TemplatesMissing);
    let some = vec![Available { name: "Button".to_string(), config: None }];
    assert_eq!(list_components(PathKind::Missing, &some), Listing::TemplatesMissing);
}

#[test]
fn listing_of_an_empty_store_says_so() {
    assert_eq!(list_components(PathKind::Directory, &Vec::new()), Listing::NoComponents);
}

#[test]
fn listing_joins_packages_and_utilities_with_commas() {
    let components = vec![
        Available {
            name: "Button".to_string(),
            config: Some(config(Some(&["clsx", "tailwind-merge", "cva"]), Some(&["cn"]))),
        },
        Available { name: "Card".to_string(), config: None },
    ];
    assert_eq!(
        list_components(PathKind::Directory, &components),
        Listing::Components(vec![
            Listed {
                name: "Button".to_string(),
                dependencies: Some("clsx, tailwind-merge, cva".to_string()),
                utils: Some("cn".to_string()),
            },
            plain("Card"),
        ])
    );
}

#[test]
fn listing_shows_no_line_for_an_empty_or_absent_list() {
    let components = vec![
        Available { name: "A".to_string(), config: Some(config(Some(&[]), None)) },
        Available { name: "B".to_string(), config: Some(config(None, Some(&["cn", "sleep"]))) },
        Available { name: "C".to_string(), config: Some(config(Some(&["x"]), Some(&[]))) },
    ];
    assert_eq!(
        list_components(PathKind::Directory, &components),
        Listing::Components(vec![
            plain("A"),
            Listed { name: "B".to_string(), dependencies: None, utils: Some("cn, sleep".to_string()) },
            Listed { name: "C".to_string(), dependencies: Some("x".to_string()), utils: None },
        ])
    );
}

#[test]
fn listing_keeps_the_order_given() {
    let components = vec![
        Available { name: "Zeta".to_string(), config: None },
        Available { name: "Alpha".to_string(), config: None },
    ];
    assert_eq!(
        list_components(PathKind::Directory, &components),
        Listing::Components(vec![plain("Zeta"), plain("Alpha")])
    );
}

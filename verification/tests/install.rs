use std::collections::{BTreeMap, BTreeSet, VecDeque};

use vin_ui::commands::add::{
    add_component, Action, Directory, Event, InstallError, Prompt, Target, Warning,
};
use vin_ui::models::component::{AdditionalFile, ComponentConfig};

const BUTTON: &str = "export const Button = () => <button />;\n";
const CN: &str = "export function cn(...inputs: string[]) {\n  return inputs.join(\" \");\n}\n";

/// The metadata of a component as the template store holds it.
enum Metadata {
    Absent,
    Malformed,
    Present(ComponentConfig),
}

/// A template store, a host project and a user, all in memory.
struct World {
    /// Files of the template store, by their path below it.
    store: BTreeMap<String, String>,
    metadata: Metadata,
    /// Whether each directory from the working directory upwards holds the
    /// project marker.
    markers: Vec<bool>,
    /// The names in the project's root.
    root: Vec<String>,
    /// Directories of the project, by their path below its root.
    directories: BTreeSet<String>,
    /// Files of the project, by their path below its root.
    files: BTreeMap<String, String>,
    /// What the user will answer, question by question; the default where
    /// this runs out.
    answers: VecDeque<bool>,
    /// Directories that cannot be created and files that cannot be written.
    broken: BTreeSet<String>,
    /// Whether the package manager reports success.
    installer_succeeds: bool,
    /// The questions asked, the programs run and the actions that changed
    /// something, as they came.
    asked: Vec<Prompt>,
    ran: Vec<(String, Vec<String>)>,
    changes: Vec<String>,
    /// The path that the last installation failed on, if it failed on one.
    failed_path: Option<String>,
}

fn strings(list: &[&str]) -> Vec<String> {
    list.iter().map(|s| s.to_string()).collect()
}

fn button_config() -> ComponentConfig {
    ComponentConfig {
        description: Some("A button".to_string()),
        dependencies: Some(strings(&["clsx"])),
        utils: Some(strings(&["cn"])),
        additional_files: None,
    }
}

/// A store with `Button.tsx`, its metadata and the `cn` snippet, and a
/// project that has its marker and nothing else.
fn fresh_world() -> World {
    let mut store = BTreeMap::new();
    store.insert("Button.tsx".to_string(), BUTTON.to_string());
    store.insert("utils/cn.ts".to_string(), CN.to_string());
    World {
        store,
        metadata: Metadata::Present(button_config()),
        markers: vec![true],
        root: strings(&["package.json"]),
        directories: BTreeSet::new(),
        files: BTreeMap::new(),
        answers: VecDeque::new(),
        broken: BTreeSet::new(),
        installer_succeeds: true,
        asked: Vec::new(),
        ran: Vec::new(),
        changes: Vec::new(),
        failed_path: None,
    }
}

impl World {
    fn create_directory(&mut self, path: &str) -> Event {
        if self.broken.contains(path) {
            return Event::Failed { path: path.to_string() };
        }
        let mut prefix = String::new();
        for segment in path.split('/') {
            if !prefix.is_empty() {
                prefix.push('/');
            }
            prefix.push_str(segment);
            self.directories.insert(prefix.clone());
        }
        Event::Done
    }

    fn write(&mut self, path: String, text: String) -> Event {
        if self.broken.contains(&path) {
            return Event::Failed { path };
        }
        self.files.insert(path, text);
        Event::Done
    }

    /// Carries out one action and says what came of it.
    fn perform(&mut self, action: Action) -> Event {
        if action.mutates() {
            self.changes.push(format!("{:?}", action));
        }
        match action {
            Action::LocateComponent { source, config } => Event::ComponentLocated {
                source: self.store.contains_key(&source),
                config: !matches!(self.metadata, Metadata::Absent) && config.ends_with(".json"),
            },
            Action::LocateProject => Event::ProjectSearched { markers: self.markers.clone() },
            Action::ProbeDirectory(directory) => {
                Event::Exists(self.directories.contains(directory.path()))
            }
            Action::Confirm { prompt, default } => {
                self.asked.push(prompt);
                Event::Answer(self.answers.pop_front().unwrap_or(default))
            }
            Action::CreateDirectory(directory) => self.create_directory(directory.path()),
            Action::ProbeDestination { file } => {
                Event::Exists(self.files.contains_key(&format!("components/ui/{}", file)))
            }
            Action::CopyComponent { file } => {
                let text = self.store[&file].clone();
                self.write(format!("components/ui/{}", file), text)
            }
            Action::LoadConfig { file: _ } => match &self.metadata {
                Metadata::Absent => Event::ConfigLoaded(None),
                Metadata::Malformed => Event::ConfigMalformed,
                Metadata::Present(config) => Event::ConfigLoaded(Some(config.clone())),
            },
            Action::ListProjectRoot => Event::Listing(self.root.clone()),
            Action::RunInstaller { program, args } => {
                self.ran.push((program, args));
                Event::Exit { success: self.installer_succeeds }
            }
            Action::ReadUtility { snippet } => Event::Utility {
                aggregate: self.files.get("lib/utils.ts").cloned().unwrap_or_default(),
                snippet: self.store.get(&format!("utils/{}", snippet)).cloned(),
            },
            Action::WriteUtilities { text } => self.write("lib/utils.ts".to_string(), text),
            Action::CopyAdditional { source, directory, dest } => {
                let target = format!("{}/{}", directory.path(), dest);
                if let Some((parent, _)) = target.rsplit_once('/') {
                    if let Event::Failed { path } = self.create_directory(parent) {
                        return Event::Failed { path };
                    }
                }
                match self.store.get(&format!("utils/{}", source)).cloned() {
                    Some(text) => match self.write(target, text) {
                        Event::Done => Event::Placed { copied: true },
                        other => other,
                    },
                    None => Event::Placed { copied: false },
                }
            }
            Action::Finish(_) => unreachable!(),
        }
    }

    /// Installs a component from start to finish.
    fn install(&mut self, name: &str) -> Result<Vec<Warning>, InstallError> {
        let mut installation = add_component(name);
        for _ in 0..1000 {
            match installation.pending() {
                Action::Finish(result) => {
                    assert!(installation.is_finished());
                    self.failed_path = installation.failed_path();
                    return result;
                }
                action => {
                    assert!(!installation.is_finished());
                    let event = self.perform(action);
                    installation = installation.advance(event);
                }
            }
        }
        panic!("the installation does not end");
    }
}

#[test]
fn first_install_places_component_utilities_and_dependencies() {
    let mut world = fresh_world();
    assert_eq!(world.install("Button"), Ok(Vec::new()));
    assert_eq!(world.files.get("components/ui/Button.tsx").map(String::as_str), Some(BUTTON));
    assert_eq!(world.files.get("lib/utils.ts").map(String::as_str), Some(CN));
    assert_eq!(world.files.len(), 2);
    assert_eq!(world.ran, vec![("npm".to_string(), strings(&["install", "clsx"]))]);
    assert!(world.directories.contains("components"));
    assert!(world.directories.contains("components/ui"));
    assert!(world.directories.contains("lib"));
    assert_eq!(
        world.asked,
        vec![
            Prompt::CreateDirectory(Directory::Components),
            Prompt::CreateDirectory(Directory::Ui),
            Prompt::InstallDependencies(strings(&["clsx"])),
            Prompt::InstallUtilities(strings(&["cn"])),
        ]
    );
}

#[test]
fn second_install_with_overwrite_declined_changes_nothing() {
    let mut world = fresh_world();
    assert_eq!(world.install("Button"), Ok(Vec::new()));
    let directories = world.directories.clone();
    let files = world.files.clone();
    world.changes.clear();
    world.asked.clear();
    world.ran.clear();
    // The component in the store has changed since; declining keeps the old one.
    world.store.insert("Button.tsx".to_string(), "export const Button = null;\n".to_string());

    assert_eq!(world.install("Button"), Err(InstallError::UserCancelled));
    assert_eq!(world.asked, vec![Prompt::Overwrite]);
    assert_eq!(world.changes, Vec::<String>::new());
    assert!(world.ran.is_empty());
    assert_eq!(world.files, files);
    assert_eq!(world.directories, directories);
    assert_eq!(world.files["components/ui/Button.tsx"], BUTTON);
    assert_eq!(world.files["lib/utils.ts"], CN);
}

#[test]
fn second_install_with_overwrite_accepted_does_not_repeat_the_utility() {
    let mut world = fresh_world();
    assert_eq!(world.install("Button"), Ok(Vec::new()));
    world.changes.clear();
    world.answers = VecDeque::from(vec![true]);
    world.store.insert("Button.tsx".to_string(), "export const Button = null;\n".to_string());

    assert_eq!(world.install("Button"), Ok(Vec::new()));
    assert_eq!(world.files["components/ui/Button.tsx"], "export const Button = null;\n");
    assert_eq!(world.files["lib/utils.ts"], CN);
    assert!(world.changes.iter().all(|change| !change.starts_with("WriteUtilities")));
}

#[test]
fn unknown_component_is_not_found_and_nothing_changes() {
    let mut world = fresh_world();
    assert_eq!(world.install("Missing"), Err(InstallError::ComponentNotFound));
    assert_eq!(world.changes, Vec::<String>::new());
    assert!(world.asked.is_empty());
    assert!(world.files.is_empty());
    assert!(world.directories.is_empty());
}

#[test]
fn metadata_without_a_source_is_not_a_component() {
    let mut world = fresh_world();
    world.store.remove("Button.tsx");
    assert_eq!(world.install("Button"), Err(InstallError::ComponentNotFound));
    assert_eq!(world.changes, Vec::<String>::new());
}

#[test]
fn install_outside_a_project_is_refused_and_nothing_changes() {
    let mut world = fresh_world();
    world.markers = vec![false, false, false];
    assert_eq!(world.install("Button"), Err(InstallError::ProjectNotFound));
    assert_eq!(world.changes, Vec::<String>::new());
    assert!(world.asked.is_empty());
}

#[test]
fn installation_remembers_where_the_project_is() {
    let installation = add_component("Button");
    assert_eq!(installation.project_root(), None);
    let installation = installation.advance(Event::ComponentLocated { source: true, config: false });
    assert_eq!(installation.pending(), Action::LocateProject);
    let installation =
        installation.advance(Event::ProjectSearched { markers: vec![false, false, true, true] });
    assert_eq!(installation.project_root(), Some(2));
    assert_eq!(installation.pending(), Action::ProbeDirectory(Directory::Components));
}

#[test]
fn declining_the_components_directory_cancels_before_any_change() {
    let mut world = fresh_world();
    world.answers = VecDeque::from(vec![false]);
    assert_eq!(world.install("Button"), Err(InstallError::UserCancelled));
    assert_eq!(world.asked, vec![Prompt::CreateDirectory(Directory::Components)]);
    assert_eq!(world.changes, Vec::<String>::new());
    assert!(world.directories.is_empty());
}

#[test]
fn declining_the_ui_directory_keeps_the_components_directory() {
    let mut world = fresh_world();
    world.answers = VecDeque::from(vec![true, false]);
    assert_eq!(world.install("Button"), Err(InstallError::UserCancelled));
    assert_eq!(world.changes, vec![format!("{:?}", Action::CreateDirectory(Directory::Components))]);
    assert!(world.directories.contains("components"));
    assert!(!world.directories.contains("components/ui"));
    assert!(world.files.is_empty());
}

#[test]
fn prompts_offer_yes_except_for_overwriting() {
    let installation = add_component("Button")
        .advance(Event::ComponentLocated { source: true, config: true })
        .advance(Event::ProjectSearched { markers: vec![true] })
        .advance(Event::Exists(false));
    assert_eq!(
        installation.pending(),
        Action::Confirm { prompt: Prompt::CreateDirectory(Directory::Components), default: true }
    );
    let installation = installation
        .advance(Event::Answer(true))
        .advance(Event::Done)
        .advance(Event::Exists(true))
        .advance(Event::Exists(true));
    assert_eq!(installation.pending(), Action::Confirm { prompt: Prompt::Overwrite, default: false });
    let installation = installation
        .advance(Event::Answer(true))
        .advance(Event::Done)
        .advance(Event::ConfigLoaded(Some(button_config())));
    assert_eq!(
        installation.pending(),
        Action::Confirm { prompt: Prompt::InstallDependencies(strings(&["clsx"])), default: true }
    );
    let installation = installation.advance(Event::Answer(false));
    assert_eq!(
        installation.pending(),
        Action::Confirm { prompt: Prompt::InstallUtilities(strings(&["cn"])), default: true }
    );
}

#[test]
fn component_files_are_named_after_the_component() {
    let installation = add_component("Date Picker");
    assert_eq!(
        installation.pending(),
        Action::LocateComponent {
            source: "Date Picker.tsx".to_string(),
            config: "Date Picker.json".to_string(),
        }
    );
    let installation = installation
        .advance(Event::ComponentLocated { source: true, config: true })
        .advance(Event::ProjectSearched { markers: vec![true] })
        .advance(Event::Exists(true))
        .advance(Event::Exists(true));
    assert_eq!(
        installation.pending(),
        Action::ProbeDestination { file: "Date Picker.tsx".to_string() }
    );
    let installation = installation.advance(Event::Exists(false));
    assert_eq!(installation.pending(), Action::CopyComponent { file: "Date Picker.tsx".to_string() });
    let installation = installation.advance(Event::Done);
    assert_eq!(installation.pending(), Action::LoadConfig { file: "Date Picker.json".to_string() });
}

#[test]
fn event_that_answers_nothing_is_ignored() {
    let installation = add_component("Button");
    let before = installation.pending();
    let installation = installation
        .advance(Event::Answer(true))
        .advance(Event::Done)
        .advance(Event::Failed { path: "x".to_string() })
        .advance(Event::Exists(true))
        .advance(Event::Exit { success: true })
        .advance(Event::ProjectSearched { markers: vec![true] });
    assert_eq!(installation.pending(), before);
}

#[test]
fn finished_installation_stays_finished() {
    let installation =
        add_component("Button").advance(Event::ComponentLocated { source: false, config: false });
    assert!(installation.is_finished());
    let installation = installation
        .advance(Event::ComponentLocated { source: true, config: true })
        .advance(Event::Done)
        .advance(Event::Answer(true));
    assert_eq!(installation.pending(), Action::Finish(Err(InstallError::ComponentNotFound)));
}

#[test]
fn failed_component_copy_is_fatal() {
    let mut world = fresh_world();
    world.broken.insert("components/ui/Button.tsx".to_string());
    assert_eq!(world.install("Button"), Err(InstallError::IoError(Target::Component)));
    assert_eq!(world.failed_path.as_deref(), Some("components/ui/Button.tsx"));
    assert!(world.ran.is_empty());
    assert!(world.files.is_empty());
}

#[test]
fn failed_directory_is_fatal() {
    let mut world = fresh_world();
    world.broken.insert("components/ui".to_string());
    assert_eq!(world.install("Button"), Err(InstallError::IoError(Target::Directory(Directory::Ui))));
    assert_eq!(world.failed_path.as_deref(), Some("components/ui"));
    assert!(world.files.is_empty());

    let mut world = fresh_world();
    world.broken.insert("lib".to_string());
    assert_eq!(world.install("Button"), Err(InstallError::IoError(Target::Directory(Directory::Lib))));
    assert_eq!(world.files["components/ui/Button.tsx"], BUTTON);
}

#[test]
fn failed_utility_write_is_fatal() {
    let mut world = fresh_world();
    world.broken.insert("lib/utils.ts".to_string());
    assert_eq!(world.install("Button"), Err(InstallError::IoError(Target::Utilities)));
    assert_eq!(world.failed_path.as_deref(), Some("lib/utils.ts"));
    assert_eq!(world.files["components/ui/Button.tsx"], BUTTON);
}

#[test]
fn failed_dependency_install_is_a_warning() {
    let mut world = fresh_world();
    world.installer_succeeds = false;
    assert_eq!(world.install("Button"), Ok(vec![Warning::DependencyInstallFailed]));
    assert_eq!(world.files["components/ui/Button.tsx"], BUTTON);
    assert_eq!(world.files["lib/utils.ts"], CN);
}

#[test]
fn malformed_metadata_is_a_warning_and_the_component_is_installed() {
    let mut world = fresh_world();
    world.metadata = Metadata::Malformed;
    assert_eq!(world.install("Button"), Ok(vec![Warning::ConfigParseError]));
    assert_eq!(world.files["components/ui/Button.tsx"], BUTTON);
    assert_eq!(world.files.len(), 1);
    assert!(world.ran.is_empty());
}

#[test]
fn component_without_metadata_is_only_copied() {
    let mut world = fresh_world();
    world.metadata = Metadata::Absent;
    assert_eq!(world.install("Button"), Ok(Vec::new()));
    assert_eq!(world.files.len(), 1);
    assert!(world.ran.is_empty());
    assert_eq!(
        world.asked,
        vec![
            Prompt::CreateDirectory(Directory::Components),
            Prompt::CreateDirectory(Directory::Ui),
        ]
    );
}

#[test]
fn empty_lists_are_not_asked_about() {
    let mut world = fresh_world();
    world.metadata = Metadata::Present(ComponentConfig {
        description: None,
        dependencies: Some(Vec::new()),
        utils: Some(Vec::new()),
        additional_files: Some(Vec::new()),
    });
    world.directories.insert("components".to_string());
    world.directories.insert("components/ui".to_string());
    assert_eq!(world.install("Button"), Ok(Vec::new()));
    assert!(world.asked.is_empty());
    assert_eq!(world.files.len(), 1);
}

#[test]
fn declined_dependencies_and_utilities_are_skipped() {
    let mut world = fresh_world();
    world.answers = VecDeque::from(vec![true, true, false, false]);
    assert_eq!(world.install("Button"), Ok(Vec::new()));
    assert!(world.ran.is_empty());
    assert_eq!(world.files.len(), 1);
    assert!(!world.directories.contains("lib"));
}

#[test]
fn installer_is_the_detected_package_manager_with_its_verb() {
    let mut world = fresh_world();
    world.root = strings(&["package.json", "package-lock.json", "bun.lockb"]);
    world.metadata = Metadata::Present(ComponentConfig {
        description: None,
        dependencies: Some(strings(&["clsx", "tailwind-merge"])),
        utils: None,
        additional_files: None,
    });
    assert_eq!(world.install("Button"), Ok(Vec::new()));
    assert_eq!(world.ran, vec![("bun".to_string(), strings(&["add", "clsx", "tailwind-merge"]))]);

    let mut world = fresh_world();
    world.root = strings(&["package.json", "pnpm-lock.yaml"]);
    assert_eq!(world.install("Button"), Ok(Vec::new()));
    assert_eq!(world.ran, vec![("pnpm".to_string(), strings(&["install", "clsx"]))]);
}

#[test]
fn utilities_are_merged_in_the_order_listed() {
    let mut world = fresh_world();
    world.store.insert("utils/sleep.ts".to_string(), "export const sleep = 1;".to_string());
    world.files.insert("lib/utils.ts".to_string(), "// mine".to_string());
    world.metadata = Metadata::Present(ComponentConfig {
        description: None,
        dependencies: None,
        utils: Some(strings(&["sleep", "nothing", "cn", "sleep"])),
        additional_files: None,
    });
    assert_eq!(world.install("Button"), Ok(Vec::new()));
    assert_eq!(
        world.files["lib/utils.ts"],
        format!("// mine\n\nexport const sleep = 1;\n\n{}", CN)
    );
}

#[test]
fn additional_files_are_routed_by_their_ending() {
    let mut world = fresh_world();
    world.store.insert("utils/use-toast.ts".to_string(), "hook".to_string());
    world.store.insert("utils/toaster.tsx".to_string(), "view".to_string());
    world.store.insert("utils/styles/toast.css".to_string(), "style".to_string());
    world.store.insert("utils/notes.md".to_string(), "notes".to_string());
    world.metadata = Metadata::Present(ComponentConfig {
        description: None,
        dependencies: None,
        utils: None,
        additional_files: Some(vec![
            AdditionalFile { source: "use-toast.ts".to_string(), dest: None, description: None },
            AdditionalFile { source: "toaster.tsx".to_string(), dest: None, description: None },
            AdditionalFile {
                source: "styles/toast.css".to_string(),
                dest: None,
                description: Some("styles".to_string()),
            },
            AdditionalFile {
                source: "notes.md".to_string(),
                dest: Some("docs/toast.md".to_string()),
                description: None,
            },
        ]),
    });
    assert_eq!(world.install("Button"), Ok(Vec::new()));
    assert_eq!(world.files["lib/use-toast.ts"], "hook");
    assert_eq!(world.files["components/ui/toaster.tsx"], "view");
    assert_eq!(world.files["components/ui/toast.css"], "style");
    assert_eq!(world.files["components/ui/docs/toast.md"], "notes");
    assert!(world.directories.contains("components/ui/docs"));
    assert!(world.directories.contains("lib"));
    assert_eq!(world.files.len(), 5);
    assert!(world.files.keys().all(|path| {
        (!path.ends_with(".ts") || !path.starts_with("components/ui/"))
            && (!path.ends_with(".tsx") || !path.starts_with("lib/"))
    }));
}

#[test]
fn missing_additional_file_is_a_warning_and_the_rest_goes_on() {
    let mut world = fresh_world();
    world.store.insert("utils/b.css".to_string(), "b".to_string());
    world.metadata = Metadata::Present(ComponentConfig {
        description: None,
        dependencies: None,
        utils: None,
        additional_files: Some(vec![
            AdditionalFile { source: "a.ts".to_string(), dest: None, description: None },
            AdditionalFile { source: "b.css".to_string(), dest: None, description: None },
            AdditionalFile { source: "c.tsx".to_string(), dest: None, description: None },
        ]),
    });
    assert_eq!(
        world.install("Button"),
        Ok(vec![Warning::AdditionalFileMissing(0), Warning::AdditionalFileMissing(2)])
    );
    assert_eq!(world.files["components/ui/b.css"], "b");
    assert_eq!(world.files.len(), 2);
}

#[test]
fn failed_additional_file_is_fatal() {
    let mut world = fresh_world();
    world.store.insert("utils/a.css".to_string(), "a".to_string());
    world.store.insert("utils/b.css".to_string(), "b".to_string());
    world.broken.insert("components/ui/b.css".to_string());
    world.metadata = Metadata::Present(ComponentConfig {
        description: None,
        dependencies: None,
        utils: None,
        additional_files: Some(vec![
            AdditionalFile { source: "a.css".to_string(), dest: None, description: None },
            AdditionalFile { source: "b.css".to_string(), dest: None, description: None },
        ]),
    });
    assert_eq!(world.install("Button"), Err(InstallError::IoError(Target::AdditionalFile(1))));
    assert_eq!(world.failed_path.as_deref(), Some("components/ui/b.css"));
    assert_eq!(world.files["components/ui/a.css"], "a");
}

#[test]
fn failed_path_is_only_there_after_a_failure() {
    let mut world = fresh_world();
    assert_eq!(world.install("Button"), Ok(Vec::new()));
    assert_eq!(world.failed_path, None);
    world.answers = VecDeque::from(vec![false]);
    assert_eq!(world.install("Button"), Err(InstallError::UserCancelled));
    assert_eq!(world.failed_path, None);
    assert_eq!(add_component("Button").failed_path(), None);
}

#[test]
fn only_changing_actions_count_as_mutating() {
    assert!(Action::CreateDirectory(Directory::Lib).mutates());
    assert!(Action::CopyComponent { file: "a.tsx".to_string() }.mutates());
    assert!(Action::RunInstaller { program: "npm".to_string(), args: Vec::new() }.mutates());
    assert!(Action::WriteUtilities { text: String::new() }.mutates());
    assert!(Action::CopyAdditional {
        source: "a".to_string(),
        directory: Directory::Ui,
        dest: "a".to_string()
    }
    .mutates());
    assert!(!Action::LocateProject.mutates());
    assert!(!Action::ListProjectRoot.mutates());
    assert!(!Action::ProbeDirectory(Directory::Ui).mutates());
    assert!(!Action::Confirm { prompt: Prompt::Overwrite, default: false }.mutates());
    assert!(!Action::ReadUtility { snippet: "cn.ts".to_string() }.mutates());
    assert!(!Action::Finish(Ok(Vec::new())).mutates());
}

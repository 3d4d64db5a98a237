//! Installing one component, as a dialogue. The installation says what it
//! needs next (an [`Action`]); the caller carries it out and reports what
//! came of it (an [`Event`]); the installation moves on. It ends with
//! [`Action::Finish`].

use crate::commands::route::{destination_directory, destination_name, route_additional_file};
use crate::models::component::{
    AdditionalFile,
    AdditionalFileView,
    ComponentConfig,
    ComponentConfigView,
};
use crate::utils::component::{add_utility, merge_writes, merged};
use crate::utils::project::{
    find_project_root,
    get_install_command,
    get_package_manager,
    install_verb,
    nearest_marked,
    package_manager_of,
};
use crate::utils::text::clone_strings;
use vstd::pervasive::unreached;
use vstd::prelude::*;
use vstd::string::StringExecFns;

verus! {

/// A directory of the host project that an installation writes to.
#[derive(Debug, Clone, Copy, PartialEq, Eq, Structural)]
pub enum Directory {
    /// `components`
    Components,
    /// `components/ui`
    Ui,
    /// `lib`
    Lib,
}

impl Directory {
    /// The directory's path below the project's root.
    pub open spec fn spec_path(self) -> Seq<char> {
        match self {
            Directory::Components => "components"@,
            Directory::Ui => "components/ui"@,
            Directory::Lib => "lib"@,
        }
    }

    /// The directory's path below the project's root.
    pub fn path(self) -> (path: &'static str)
        ensures
            path@ == self.spec_path(),
    {
        match self {
            Directory::Components => "components",
            Directory::Ui => "components/ui",
            Directory::Lib => "lib",
        }
    }
}

/// What an I/O failure was about.
#[derive(Debug, Clone, Copy, PartialEq, Eq, Structural)]
pub enum Target {
    /// A directory of the host project could not be created.
    Directory(Directory),
    /// The component's own file could not be copied.
    Component,
    /// The shared utility file could not be read or written.
    Utilities,
    /// The additional file with this index in the component's metadata
    /// could not be placed.
    AdditionalFile(usize),
}

/// Why an installation ended without installing.
#[derive(Debug, Clone, Copy, PartialEq, Eq, Structural)]
pub enum InstallError {
    /// The template store has no source file for the component.
    ComponentNotFound,
    /// No directory from the start upwards holds the project marker.
    ProjectNotFound,
    /// The user declined to create a directory or to overwrite.
    UserCancelled,
    /// A directory, a copy or a write failed. The path it failed on is
    /// [`Installation::failed_path`].
    IoError(Target),
}

/// Something that went wrong without stopping the installation.
#[derive(Debug, Clone, Copy, PartialEq, Eq, Structural)]
pub enum Warning {
    /// The component's metadata could not be read; it was installed as a
    /// component without metadata.
    ConfigParseError,
    /// The package manager did not report success.
    DependencyInstallFailed,
    /// The additional file with this index has no source in the template
    /// store and was skipped.
    AdditionalFileMissing(usize),
}

/// A question for the user.
#[derive(Debug, PartialEq, Eq)]
pub enum Prompt {
    /// Create this directory, which the project lacks?
    CreateDirectory(Directory),
    /// Overwrite the component, which the project has already?
    Overwrite,
    /// Install these packages?
    InstallDependencies(Vec<String>),
    /// Install these utilities?
    InstallUtilities(Vec<String>),
}

/// What a [`Prompt`] holds, as mathematical values.
pub ghost enum PromptView {
    CreateDirectory(Directory),
    Overwrite,
    InstallDependencies(Seq<Seq<char>>),
    InstallUtilities(Seq<Seq<char>>),
}

impl View for Prompt {
    type V = PromptView;

    open spec fn view(&self) -> PromptView {
        match self {
            Prompt::CreateDirectory(directory) => PromptView::CreateDirectory(*directory),
            Prompt::Overwrite => PromptView::Overwrite,
            Prompt::InstallDependencies(packages) => PromptView::InstallDependencies(
                packages.deep_view(),
            ),
            Prompt::InstallUtilities(names) => PromptView::InstallUtilities(names.deep_view()),
        }
    }
}

/// What the caller is to do next. A file named here lies in the template
/// store unless its variant says otherwise.
#[derive(Debug, PartialEq, Eq)]
pub enum Action {
    /// Look in the template store for the component's source and metadata
    /// files. Answered by [`Event::ComponentLocated`].
    LocateComponent { source: String, config: String },
    /// Look for the project marker in the working directory and in each
    /// directory above it. Answered by [`Event::ProjectSearched`].
    LocateProject,
    /// See whether the project has this directory. Answered by
    /// [`Event::Exists`].
    ProbeDirectory(Directory),
    /// Ask the user, offering `default`. Answered by [`Event::Answer`].
    Confirm { prompt: Prompt, default: bool },
    /// Make sure the project has this directory, creating it where it is
    /// missing. Answered by [`Event::Done`] or [`Event::Failed`].
    CreateDirectory(Directory),
    /// See whether `components/ui` holds `file` already. Answered by
    /// [`Event::Exists`].
    ProbeDestination { file: String },
    /// Copy `file` from the template store into `components/ui`. Answered
    /// by [`Event::Done`] or [`Event::Failed`].
    CopyComponent { file: String },
    /// Read the component's metadata from `file`. Answered by
    /// [`Event::ConfigLoaded`] or [`Event::ConfigMalformed`].
    LoadConfig { file: String },
    /// List the names in the project's root directory. Answered by
    /// [`Event::Listing`].
    ListProjectRoot,
    /// Run `program` with `args` in the project's root directory. Answered
    /// by [`Event::Exit`].
    RunInstaller { program: String, args: Vec<String> },
    /// Read the shared utility file `lib/utils.ts` and, from the store's
    /// `utils` area, `snippet`. Answered by [`Event::Utility`], or by
    /// [`Event::Failed`] where a file that exists cannot be read.
    ReadUtility { snippet: String },
    /// Write `text` to the shared utility file. Answered by [`Event::Done`]
    /// or [`Event::Failed`].
    WriteUtilities { text: String },
    /// Copy `source`, from the store's `utils` area, to `dest` under
    /// `directory`, creating the directories that `dest` passes through.
    /// Answered by [`Event::Placed`], or by [`Event::Failed`].
    CopyAdditional { source: String, directory: Directory, dest: String },
    /// Nothing more: the installation has ended, with these warnings or
    /// with this error.
    Finish(Result<Vec<Warning>, InstallError>),
}

/// What an [`Action`] holds, as mathematical values.
pub ghost enum ActionView {
    LocateComponent { source: Seq<char>, config: Seq<char> },
    LocateProject,
    ProbeDirectory(Directory),
    Confirm { prompt: PromptView, default: bool },
    CreateDirectory(Directory),
    ProbeDestination { file: Seq<char> },
    CopyComponent { file: Seq<char> },
    LoadConfig { file: Seq<char> },
    ListProjectRoot,
    RunInstaller { program: Seq<char>, args: Seq<Seq<char>> },
    ReadUtility { snippet: Seq<char> },
    WriteUtilities { text: Seq<char> },
    CopyAdditional { source: Seq<char>, directory: Directory, dest: Seq<char> },
    Finish(Result<Seq<Warning>, InstallError>),
}

impl View for Action {
    type V = ActionView;

    open spec fn view(&self) -> ActionView {
        match self {
            Action::LocateComponent { source, config } => ActionView::LocateComponent {
                source: source@,
                config: config@,
            },
            Action::LocateProject => ActionView::LocateProject,
            Action::ProbeDirectory(directory) => ActionView::ProbeDirectory(*directory),
            Action::Confirm { prompt, default } => ActionView::Confirm {
                prompt: prompt@,
                default: *default,
            },
            Action::CreateDirectory(directory) => ActionView::CreateDirectory(*directory),
            Action::ProbeDestination { file } => ActionView::ProbeDestination { file: file@ },
            Action::CopyComponent { file } => ActionView::CopyComponent { file: file@ },
            Action::LoadConfig { file } => ActionView::LoadConfig { file: file@ },
            Action::ListProjectRoot => ActionView::ListProjectRoot,
            Action::RunInstaller { program, args } => ActionView::RunInstaller {
                program: program@,
                args: args.deep_view(),
            },
            Action::ReadUtility { snippet } => ActionView::ReadUtility { snippet: snippet@ },
            Action::WriteUtilities { text } => ActionView::WriteUtilities { text: text@ },
            Action::CopyAdditional { source, directory, dest } => ActionView::CopyAdditional {
                source: source@,
                directory: *directory,
                dest: dest@,
            },
            Action::Finish(result) => ActionView::Finish(
                match result {
                    Ok(warnings) => Ok(warnings@),
                    Err(error) => Err(*error),
                },
            ),
        }
    }
}

impl ActionView {
    /// Whether carrying the action out changes anything on disk or runs a
    /// program.
    pub open spec fn mutates(self) -> bool {
        self is CreateDirectory || self is CopyComponent || self is RunInstaller
            || self is WriteUtilities || self is CopyAdditional
    }
}

impl Action {
    /// Whether carrying the action out changes anything on disk or runs a
    /// program.
    pub fn mutates(&self) -> (yes: bool)
        ensures
            yes == self@.mutates(),
    {
        match self {
            Action::CreateDirectory(_)
            | Action::CopyComponent { .. }
            | Action::RunInstaller { .. }
            | Action::WriteUtilities { .. }
            | Action::CopyAdditional { .. } => true,
            _ => false,
        }
    }
}

/// What the caller found or did.
#[derive(Debug, PartialEq, Eq)]
pub enum Event {
    /// Whether the template store holds the component's source file, and
    /// whether it holds its metadata file.
    ComponentLocated { source: bool, config: bool },
    /// For the working directory and each directory above it, nearest
    /// first, whether it holds the project marker.
    ProjectSearched { markers: Vec<bool> },
    /// Whether what was probed exists.
    Exists(bool),
    /// What the user answered.
    Answer(bool),
    /// The action was carried out.
    Done,
    /// The action could not be carried out: it failed on `path`.
    Failed { path: String },
    /// The metadata file was read: its content, or nothing where the
    /// component has no metadata file.
    ConfigLoaded(Option<ComponentConfig>),
    /// The metadata file exists and could not be understood.
    ConfigMalformed,
    /// The names found in the project's root directory.
    Listing(Vec<String>),
    /// The program ran and reported success, or it did not.
    Exit { success: bool },
    /// The text of the shared utility file, empty where there is no such
    /// file, and the snippet's text, absent where the store has none.
    Utility { aggregate: String, snippet: Option<String> },
    /// The additional file was copied, or its source does not exist and
    /// nothing was copied.
    Placed { copied: bool },
}

/// What an [`Event`] holds, as mathematical values.
pub ghost enum EventView {
    ComponentLocated { source: bool, config: bool },
    ProjectSearched { markers: Seq<bool> },
    Exists(bool),
    Answer(bool),
    Done,
    Failed { path: Seq<char> },
    ConfigLoaded(Option<ComponentConfigView>),
    ConfigMalformed,
    Listing(Seq<Seq<char>>),
    Exit { success: bool },
    Utility { aggregate: Seq<char>, snippet: Option<Seq<char>> },
    Placed { copied: bool },
}

impl View for Event {
    type V = EventView;

    open spec fn view(&self) -> EventView {
        match self {
            Event::ComponentLocated { source, config } => EventView::ComponentLocated {
                source: *source,
                config: *config,
            },
            Event::ProjectSearched { markers } => EventView::ProjectSearched { markers: markers@ },
            Event::Exists(found) => EventView::Exists(*found),
            Event::Answer(yes) => EventView::Answer(*yes),
            Event::Done => EventView::Done,
            Event::Failed { path } => EventView::Failed { path: path@ },
            Event::ConfigLoaded(config) => EventView::ConfigLoaded(config.deep_view()),
            Event::ConfigMalformed => EventView::ConfigMalformed,
            Event::Listing(names) => EventView::Listing(names.deep_view()),
            Event::Exit { success } => EventView::Exit { success: *success },
            Event::Utility { aggregate, snippet } => EventView::Utility {
                aggregate: aggregate@,
                snippet: snippet.deep_view(),
            },
            Event::Placed { copied } => EventView::Placed { copied: *copied },
        }
    }
}

/// Where an installation stands: what it is waiting for.
#[derive(Debug, Clone, Copy, PartialEq, Eq)]
pub enum Phase {
    /// For word on the component's files in the template store.
    LocatingComponent,
    /// For word on where the project marker is.
    LocatingProject,
    /// For word on whether the project has the directory.
    ProbingDirectory(Directory),
    /// For the user's consent to create the directory.
    ConfirmingDirectory(Directory),
    /// For the directory to be created.
    CreatingDirectory(Directory),
    /// For word on whether the project holds the component already.
    ProbingDestination,
    /// For the user's consent to overwrite the component.
    ConfirmingOverwrite,
    /// For the component's file to be copied.
    CopyingComponent,
    /// For the component's metadata.
    LoadingConfig,
    /// For the user's consent to install the packages.
    ConfirmingDependencies,
    /// For the names in the project's root.
    DetectingPackageManager,
    /// For the package manager to run.
    InstallingDependencies,
    /// For the user's consent to install the utilities.
    ConfirmingUtilities,
    /// For `lib` to be made sure of, ahead of the utilities.
    PreparingUtilities,
    /// For the texts that the utility with this index is merged from.
    ReadingUtility(usize),
    /// For the merged text to be written, the utility with this index
    /// being the one merged in.
    WritingUtility(usize),
    /// For `lib` to be made sure of, ahead of the additional file with
    /// this index.
    PreparingFile(usize),
    /// For the additional file with this index to be copied.
    CopyingFile(usize),
    /// For nothing: the installation has ended, well or with this error.
    Finished(Result<(), InstallError>),
}

impl Phase {
    /// Whether the component's own file has been copied by the time the
    /// installation stands here.
    pub open spec fn after_copy(self) -> bool {
        match self {
            Phase::LocatingComponent
            | Phase::LocatingProject
            | Phase::ProbingDirectory(_)
            | Phase::ConfirmingDirectory(_)
            | Phase::CreatingDirectory(_)
            | Phase::ProbingDestination
            | Phase::ConfirmingOverwrite
            | Phase::CopyingComponent => false,
            Phase::Finished(result) => result is Ok || (result matches Err(InstallError::IoError(
                target,
            )) && target != Target::Component && target != Target::Directory(
                Directory::Components,
            ) && target != Target::Directory(Directory::Ui)),
            _ => true,
        }
    }
}

/// The installation of one component into one project.
pub struct Installation {
    name: String,
    phase: Phase,
    root: Option<usize>,
    config: Option<ComponentConfig>,
    manager: String,
    text: String,
    culprit: String,
    warnings: Vec<Warning>,
}

/// The state of an [`Installation`], as mathematical values.
pub ghost struct InstallationView {
    /// The component's name.
    pub name: Seq<char>,
    /// What the installation is waiting for.
    pub phase: Phase,
    /// The project's root, once found: how many levels above the start.
    pub root: Option<int>,
    /// The component's metadata, once read, if it has any.
    pub config: Option<ComponentConfigView>,
    /// The package manager detected, once it has been.
    pub manager: Seq<char>,
    /// The text that the shared utility file is to hold next.
    pub text: Seq<char>,
    /// The path on which the installation failed, once it has.
    pub culprit: Seq<char>,
    /// The warnings so far.
    pub warnings: Seq<Warning>,
}

impl View for Installation {
    type V = InstallationView;

    closed spec fn view(&self) -> InstallationView {
        InstallationView {
            name: self.name@,
            phase: self.phase,
            root: match self.root {
                Some(i) => Some(i as int),
                None => None,
            },
            config: self.config.deep_view(),
            manager: self.manager@,
            text: self.text@,
            culprit: self.culprit@,
            warnings: self.warnings@,
        }
    }
}

impl InstallationView {
    /// The state in which the installation of `name` begins.
    pub open spec fn start(name: Seq<char>) -> InstallationView {
        InstallationView {
            name,
            phase: Phase::LocatingComponent,
            root: None,
            config: None,
            manager: Seq::empty(),
            text: Seq::empty(),
            culprit: Seq::empty(),
            warnings: Seq::empty(),
        }
    }

    /// The packages that the metadata lists, none before it is read.
    pub open spec fn packages(self) -> Seq<Seq<char>> {
        match self.config {
            Some(config) => config.packages(),
            None => Seq::empty(),
        }
    }

    /// The utilities that the metadata lists, none before it is read.
    pub open spec fn utilities(self) -> Seq<Seq<char>> {
        match self.config {
            Some(config) => config.utilities(),
            None => Seq::empty(),
        }
    }

    /// The additional files that the metadata lists, none before it is
    /// read.
    pub open spec fn files(self) -> Seq<AdditionalFileView> {
        match self.config {
            Some(config) => config.files(),
            None => Seq::empty(),
        }
    }

    /// The name of the component's source file, in the store and in the
    /// project alike.
    pub open spec fn source_file(self) -> Seq<char> {
        self.name + ".tsx"@
    }

    /// The name of the component's metadata file in the store.
    pub open spec fn config_file(self) -> Seq<char> {
        self.name + ".json"@
    }

    /// Whether the state is one that an installation can be in: a
    /// directory being asked about is one that needs consent, and a
    /// utility or file being worked on is one that the metadata lists.
    pub open spec fn wf(self) -> bool {
        match self.phase {
            Phase::ProbingDirectory(directory)
            | Phase::ConfirmingDirectory(directory)
            | Phase::CreatingDirectory(directory) => directory != Directory::Lib,
            Phase::ReadingUtility(i) | Phase::WritingUtility(i) => i < self.utilities().len(),
            Phase::PreparingFile(i) | Phase::CopyingFile(i) => i < self.files().len(),
            _ => true,
        }
    }

    /// The same installation, waiting for something else.
    pub open spec fn at(self, phase: Phase) -> InstallationView {
        InstallationView { phase, ..self }
    }

    /// The same installation with one more warning.
    pub open spec fn warned(self, warning: Warning) -> InstallationView {
        InstallationView { warnings: self.warnings.push(warning), ..self }
    }

    /// Where the installation goes once the directory is there.
    pub open spec fn past_directory(self, directory: Directory) -> InstallationView {
        match directory {
            Directory::Components => self.at(Phase::ProbingDirectory(Directory::Ui)),
            _ => self.at(Phase::ProbingDestination),
        }
    }

    /// The step for the packages: asked about where the metadata lists any.
    pub open spec fn to_dependencies(self) -> InstallationView {
        if self.packages().len() > 0 {
            self.at(Phase::ConfirmingDependencies)
        } else {
            self.to_utilities()
        }
    }

    /// The step for the utilities: asked about where the metadata lists any.
    pub open spec fn to_utilities(self) -> InstallationView {
        if self.utilities().len() > 0 {
            self.at(Phase::ConfirmingUtilities)
        } else {
            self.to_file(0)
        }
    }

    /// The utility with index `i` is next, or, after the last one, the
    /// additional files.
    pub open spec fn to_utility(self, i: usize) -> InstallationView {
        if i < self.utilities().len() {
            self.at(Phase::ReadingUtility(i))
        } else {
            self.to_file(0)
        }
    }

    /// The additional file with index `i` is next: a file bound for `lib`
    /// has that directory made sure of first. After the last file the
    /// installation has succeeded.
    pub open spec fn to_file(self, i: usize) -> InstallationView {
        if i < self.files().len() {
            if destination_directory(self.files()[i as int].source) == Directory::Lib {
                self.at(Phase::PreparingFile(i))
            } else {
                self.at(Phase::CopyingFile(i))
            }
        } else {
            self.at(Phase::Finished(Ok(())))
        }
    }

    /// The installation ended by this error.
    pub open spec fn failed(self, error: InstallError) -> InstallationView {
        self.at(Phase::Finished(Err(error)))
    }

    /// The installation ended by a failure on `path`.
    pub open spec fn failed_on(self, path: Seq<char>, target: Target) -> InstallationView {
        InstallationView { culprit: path, ..self }.failed(InstallError::IoError(target))
    }

    /// The path to report with the error: the one that the failure was on,
    /// where the installation ended by a failure.
    pub open spec fn failed_path(self) -> Option<Seq<char>> {
        if self.phase matches Phase::Finished(Err(InstallError::IoError(_))) {
            Some(self.culprit)
        } else {
            None
        }
    }

    /// What the installation needs next.
    pub open spec fn pending(self) -> ActionView {
        match self.phase {
            Phase::LocatingComponent => ActionView::LocateComponent {
                source: self.source_file(),
                config: self.config_file(),
            },
            Phase::LocatingProject => ActionView::LocateProject,
            Phase::ProbingDirectory(directory) => ActionView::ProbeDirectory(directory),
            Phase::ConfirmingDirectory(directory) => ActionView::Confirm {
                prompt: PromptView::CreateDirectory(directory),
                default: true,
            },
            Phase::CreatingDirectory(directory) => ActionView::CreateDirectory(directory),
            Phase::ProbingDestination => ActionView::ProbeDestination { file: self.source_file() },
            Phase::ConfirmingOverwrite => ActionView::Confirm {
                prompt: PromptView::Overwrite,
                default: false,
            },
            Phase::CopyingComponent => ActionView::CopyComponent { file: self.source_file() },
            Phase::LoadingConfig => ActionView::LoadConfig { file: self.config_file() },
            Phase::ConfirmingDependencies => ActionView::Confirm {
                prompt: PromptView::InstallDependencies(self.packages()),
                default: true,
            },
            Phase::DetectingPackageManager => ActionView::ListProjectRoot,
            Phase::InstallingDependencies => ActionView::RunInstaller {
                program: self.manager,
                args: seq![install_verb(self.manager)] + self.packages(),
            },
            Phase::ConfirmingUtilities => ActionView::Confirm {
                prompt: PromptView::InstallUtilities(self.utilities()),
                default: true,
            },
            Phase::PreparingUtilities => ActionView::CreateDirectory(Directory::Lib),
            Phase::ReadingUtility(i) => ActionView::ReadUtility {
                snippet: self.utilities()[i as int] + ".ts"@,
            },
            Phase::WritingUtility(_) => ActionView::WriteUtilities { text: self.text },
            Phase::PreparingFile(_) => ActionView::CreateDirectory(Directory::Lib),
            Phase::CopyingFile(i) => ActionView::CopyAdditional {
                source: self.files()[i as int].source,
                directory: destination_directory(self.files()[i as int].source),
                dest: destination_name(self.files()[i as int]),
            },
            Phase::Finished(result) => ActionView::Finish(
                match result {
                    Ok(_) => Ok(self.warnings),
                    Err(error) => Err(error),
                },
            ),
        }
    }

    /// The state after `event`. An event that does not answer the pending
    /// action changes nothing.
    pub open spec fn advanced(self, event: EventView) -> InstallationView {
        match (self.phase, event) {
            (Phase::LocatingComponent, EventView::ComponentLocated { source, config }) => if source {
                self.at(Phase::LocatingProject)
            } else {
                self.failed(InstallError::ComponentNotFound)
            },
            (Phase::LocatingProject, EventView::ProjectSearched { markers }) => match nearest_marked(
                markers,
            ) {
                Some(i) => InstallationView { root: Some(i), ..self }.at(
                    Phase::ProbingDirectory(Directory::Components),
                ),
                None => self.failed(InstallError::ProjectNotFound),
            },
            (Phase::ProbingDirectory(directory), EventView::Exists(found)) => if found {
                self.past_directory(directory)
            } else {
                self.at(Phase::ConfirmingDirectory(directory))
            },
            (Phase::ConfirmingDirectory(directory), EventView::Answer(yes)) => if yes {
                self.at(Phase::CreatingDirectory(directory))
            } else {
                self.failed(InstallError::UserCancelled)
            },
            (Phase::CreatingDirectory(directory), EventView::Done) => self.past_directory(directory),
            (Phase::CreatingDirectory(directory), EventView::Failed { path }) => self.failed_on(path, Target::Directory(directory)),
            (Phase::ProbingDestination, EventView::Exists(found)) => if found {
                self.at(Phase::ConfirmingOverwrite)
            } else {
                self.at(Phase::CopyingComponent)
            },
            (Phase::ConfirmingOverwrite, EventView::Answer(yes)) => if yes {
                self.at(Phase::CopyingComponent)
            } else {
                self.failed(InstallError::UserCancelled)
            },
            (Phase::CopyingComponent, EventView::Done) => self.at(Phase::LoadingConfig),
            (Phase::CopyingComponent, EventView::Failed { path }) => self.failed_on(path, Target::Component),
            (Phase::LoadingConfig, EventView::ConfigLoaded(config)) => InstallationView {
                config,
                ..self
            }.to_dependencies(),
            (Phase::LoadingConfig, EventView::ConfigMalformed) => self.warned(
                Warning::ConfigParseError,
            ).to_dependencies(),
            (Phase::ConfirmingDependencies, EventView::Answer(yes)) => if yes {
                self.at(Phase::DetectingPackageManager)
            } else {
                self.to_utilities()
            },
            (Phase::DetectingPackageManager, EventView::Listing(names)) => InstallationView {
                manager: package_manager_of(names),
                ..self
            }.at(Phase::InstallingDependencies),
            (Phase::InstallingDependencies, EventView::Exit { success }) => if success {
                self.to_utilities()
            } else {
                self.warned(Warning::DependencyInstallFailed).to_utilities()
            },
            (Phase::ConfirmingUtilities, EventView::Answer(yes)) => if yes {
                self.at(Phase::PreparingUtilities)
            } else {
                self.to_file(0)
            },
            (Phase::PreparingUtilities, EventView::Done) => self.to_utility(0),
            (Phase::PreparingUtilities, EventView::Failed { path }) => self.failed_on(path, Target::Directory(Directory::Lib)),
            (Phase::ReadingUtility(i), EventView::Utility { aggregate, snippet }) => if merge_writes(
                aggregate,
                snippet,
            ) {
                InstallationView { text: merged(aggregate, snippet), ..self }.at(
                    Phase::WritingUtility(i),
                )
            } else {
                self.to_utility((i + 1) as usize)
            },
            (Phase::ReadingUtility(_), EventView::Failed { path }) => self.failed_on(path, Target::Utilities),
            (Phase::WritingUtility(i), EventView::Done) => self.to_utility((i + 1) as usize),
            (Phase::WritingUtility(_), EventView::Failed { path }) => self.failed_on(path, Target::Utilities),
            (Phase::PreparingFile(i), EventView::Done) => self.at(Phase::CopyingFile(i)),
            (Phase::PreparingFile(_), EventView::Failed { path }) => self.failed_on(path, Target::Directory(Directory::Lib)),
            (Phase::CopyingFile(i), EventView::Placed { copied }) => if copied {
                self.to_file((i + 1) as usize)
            } else {
                self.warned(Warning::AdditionalFileMissing(i)).to_file((i + 1) as usize)
            },
            (Phase::CopyingFile(i), EventView::Failed { path }) => self.failed_on(path, Target::AdditionalFile(i)),
            _ => self,
        }
    }
}

/// A copy of a list of warnings.
fn clone_warnings(list: &Vec<Warning>) -> (copy: Vec<Warning>)
    ensures
        copy@ == list@,
{
    let mut copy: Vec<Warning> = Vec::new();
    let mut i: usize = 0;
    while i < list.len()
        invariant
            i <= list.len(),
            copy@ == list@.take(i as int),
        decreases list.len() - i,
    {
        copy.push(list[i]);
        assert(list@.take(i + 1) =~= list@.take(i as int).push(list[i as int]));
        i += 1;
    }
    assert(list@.take(list.len() as int) =~= list@);
    copy
}

/// The arguments for the package manager: its verb, then the packages.
fn installer_args(verb: &str, packages: &Vec<String>) -> (args: Vec<String>)
    ensures
        args.deep_view() == seq![verb@] + packages.deep_view(),
{
    let mut args: Vec<String> = Vec::new();
    args.push(verb.to_owned());
    let mut i: usize = 0;
    while i < packages.len()
        invariant
            i <= packages.len(),
            args.len() == i + 1,
            args[0]@ == verb@,
            forall|j: int| 0 <= j < i ==> args[j + 1]@ == packages[j]@,
        decreases packages.len() - i,
    {
        args.push(packages[i].clone());
        i += 1;
    }
    assert(args.deep_view() =~= seq![verb@] + packages.deep_view());
    args
}

/// Begins the installation of the component `component_name`.
pub fn add_component(component_name: &str) -> (installation: Installation)
    ensures
        installation@ == InstallationView::start(component_name@),
        installation@.wf(),
{
    Installation {
        name: component_name.to_owned(),
        phase: Phase::LocatingComponent,
        root: None,
        config: None,
        manager: String::new(),
        text: String::new(),
        culprit: String::new(),
        warnings: Vec::new(),
    }
}

impl Installation {
    /// An installation is always in a state that an installation can be in.
    #[verifier::type_invariant]
    spec fn well_formed(&self) -> bool {
        self@.wf()
    }

    /// The project's root, once it has been found: how many levels above
    /// the start directory it lies.
    pub fn project_root(&self) -> (root: Option<usize>)
        ensures
            match root {
                Some(i) => self@.root == Some(i as int),
                None => self@.root is None,
            },
    {
        self.root
    }

    /// The path to report with the error, where the installation ended by
    /// a failure: the one that the caller reported the failure on.
    pub fn failed_path(&self) -> (path: Option<String>)
        ensures
            path.deep_view() == self@.failed_path(),
    {
        match self.phase {
            Phase::Finished(Err(InstallError::IoError(_))) => Some(self.culprit.clone()),
            _ => None,
        }
    }

    /// Whether the installation has ended.
    pub fn is_finished(&self) -> (finished: bool)
        ensures
            finished == (self@.phase is Finished),
    {
        match self.phase {
            Phase::Finished(_) => true,
            _ => false,
        }
    }

    fn source_file(&self) -> (file: String)
        ensures
            file@ == self@.source_file(),
    {
        let mut file = self.name.clone();
        file.append(".tsx");
        file
    }

    fn config_file(&self) -> (file: String)
        ensures
            file@ == self@.config_file(),
    {
        let mut file = self.name.clone();
        file.append(".json");
        file
    }

    fn packages(&self) -> (list: Vec<String>)
        ensures
            list.deep_view() == self@.packages(),
    {
        match &self.config {
            Some(ComponentConfig { dependencies: Some(list), .. }) => clone_strings(list),
            _ => {
                let none: Vec<String> = Vec::new();
                assert(none.deep_view() =~= Seq::empty());
                none
            },
        }
    }

    fn has_packages(&self) -> (some: bool)
        ensures
            some == (self@.packages().len() > 0),
    {
        match &self.config {
            Some(ComponentConfig { dependencies: Some(list), .. }) => list.len() > 0,
            _ => false,
        }
    }

    fn utilities(&self) -> (list: Vec<String>)
        ensures
            list.deep_view() == self@.utilities(),
    {
        match &self.config {
            Some(ComponentConfig { utils: Some(list), .. }) => clone_strings(list),
            _ => {
                let none: Vec<String> = Vec::new();
                assert(none.deep_view() =~= Seq::empty());
                none
            },
        }
    }

    fn utility_count(&self) -> (count: usize)
        ensures
            count == self@.utilities().len(),
    {
        match &self.config {
            Some(ComponentConfig { utils: Some(list), .. }) => list.len(),
            _ => 0,
        }
    }

    fn utility(&self, i: usize) -> (name: &String)
        requires
            i < self@.utilities().len(),
        ensures
            name@ == self@.utilities()[i as int],
    {
        match &self.config {
            Some(ComponentConfig { utils: Some(list), .. }) => &list[i],
            _ => unreached(),
        }
    }

    fn file_count(&self) -> (count: usize)
        ensures
            count == self@.files().len(),
    {
        match &self.config {
            Some(ComponentConfig { additional_files: Some(list), .. }) => list.len(),
            _ => 0,
        }
    }

    fn file(&self, i: usize) -> (file: &AdditionalFile)
        requires
            i < self@.files().len(),
        ensures
            file@ == self@.files()[i as int],
    {
        match &self.config {
            Some(ComponentConfig { additional_files: Some(list), .. }) => &list[i],
            _ => unreached(),
        }
    }

    /// What the installation needs next. Asking again changes nothing.
    pub fn pending(&self) -> (action: Action)
        ensures
            action@ == self@.pending(),
    {
        proof {
            use_type_invariant(self);
        }
        match self.phase {
            Phase::LocatingComponent => Action::LocateComponent {
                source: self.source_file(),
                config: self.config_file(),
            },
            Phase::LocatingProject => Action::LocateProject,
            Phase::ProbingDirectory(directory) => Action::ProbeDirectory(directory),
            Phase::ConfirmingDirectory(directory) => Action::Confirm {
                prompt: Prompt::CreateDirectory(directory),
                default: true,
            },
            Phase::CreatingDirectory(directory) => Action::CreateDirectory(directory),
            Phase::ProbingDestination => Action::ProbeDestination { file: self.source_file() },
            Phase::ConfirmingOverwrite => Action::Confirm {
                prompt: Prompt::Overwrite,
                default: false,
            },
            Phase::CopyingComponent => Action::CopyComponent { file: self.source_file() },
            Phase::LoadingConfig => Action::LoadConfig { file: self.config_file() },
            Phase::ConfirmingDependencies => Action::Confirm {
                prompt: Prompt::InstallDependencies(self.packages()),
                default: true,
            },
            Phase::DetectingPackageManager => Action::ListProjectRoot,
            Phase::InstallingDependencies => {
                let verb: &'static str = get_install_command(self.manager.as_str());
                let packages = self.packages();
                Action::RunInstaller {
                    program: self.manager.clone(),
                    args: installer_args(verb, &packages),
                }
            },
            Phase::ConfirmingUtilities => Action::Confirm {
                prompt: Prompt::InstallUtilities(self.utilities()),
                default: true,
            },
            Phase::PreparingUtilities => Action::CreateDirectory(Directory::Lib),
            Phase::ReadingUtility(i) => {
                let mut snippet = self.utility(i).clone();
                snippet.append(".ts");
                Action::ReadUtility { snippet }
            },
            Phase::WritingUtility(_) => Action::WriteUtilities { text: self.text.clone() },
            Phase::PreparingFile(_) => Action::CreateDirectory(Directory::Lib),
            Phase::CopyingFile(i) => {
                let file = self.file(i);
                let (directory, dest) = route_additional_file(file);
                Action::CopyAdditional { source: file.source.clone(), directory, dest }
            },
            Phase::Finished(result) => match result {
                Ok(_) => Action::Finish(Ok(clone_warnings(&self.warnings))),
                Err(error) => Action::Finish(Err(error)),
            },
        }
    }

    fn at(self, phase: Phase) -> (next: Installation)
        requires
            self@.at(phase).wf(),
        ensures
            next@ == self@.at(phase),
    {
        Installation { phase, ..self }
    }

    fn warned(self, warning: Warning) -> (next: Installation)
        ensures
            next@ == self@.warned(warning),
    {
        proof {
            use_type_invariant(&self);
        }
        let mut warnings = self.warnings;
        warnings.push(warning);
        Installation { warnings, ..self }
    }

    fn failed(self, error: InstallError) -> (next: Installation)
        ensures
            next@ == self@.failed(error),
            next@.wf(),
    {
        self.at(Phase::Finished(Err(error)))
    }

    fn failed_on(self, path: String, target: Target) -> (next: Installation)
        ensures
            next@ == self@.failed_on(path@, target),
            next@.wf(),
    {
        proof {
            use_type_invariant(&self);
        }
        Installation { culprit: path, ..self }.failed(InstallError::IoError(target))
    }

    fn past_directory(self, directory: Directory) -> (next: Installation)
        ensures
            next@ == self@.past_directory(directory),
            next@.wf(),
    {
        match directory {
            Directory::Components => self.at(Phase::ProbingDirectory(Directory::Ui)),
            _ => self.at(Phase::ProbingDestination),
        }
    }

    fn to_dependencies(self) -> (next: Installation)
        ensures
            next@ == self@.to_dependencies(),
            next@.wf(),
    {
        if self.has_packages() {
            self.at(Phase::ConfirmingDependencies)
        } else {
            self.to_utilities()
        }
    }

    fn to_utilities(self) -> (next: Installation)
        ensures
            next@ == self@.to_utilities(),
            next@.wf(),
    {
        if self.utility_count() > 0 {
            self.at(Phase::ConfirmingUtilities)
        } else {
            self.to_file(0)
        }
    }

    fn to_utility(self, i: usize) -> (next: Installation)
        ensures
            next@ == self@.to_utility(i),
            next@.wf(),
    {
        if i < self.utility_count() {
            self.at(Phase::ReadingUtility(i))
        } else {
            self.to_file(0)
        }
    }

    fn to_file(self, i: usize) -> (next: Installation)
        ensures
            next@ == self@.to_file(i),
            next@.wf(),
    {
        if i < self.file_count() {
            let (directory, _) = route_additional_file(self.file(i));
            match directory {
                Directory::Lib => self.at(Phase::PreparingFile(i)),
                _ => self.at(Phase::CopyingFile(i)),
            }
        } else {
            self.at(Phase::Finished(Ok(())))
        }
    }

    /// Takes in what the caller found or did, and moves on. An event that
    /// does not answer the pending action changes nothing.
    pub fn advance(self, event: Event) -> (next: Installation)
        ensures
            next@ == self@.advanced(event@),
            next@.wf(),
    {
        proof {
            use_type_invariant(&self);
        }
        match (self.phase, event) {
            (Phase::LocatingComponent, Event::ComponentLocated { source, config }) => {
                if source {
                    self.at(Phase::LocatingProject)
                } else {
                    self.failed(InstallError::ComponentNotFound)
                }
            },
            (Phase::LocatingProject, Event::ProjectSearched { markers }) => {
                match find_project_root(&markers) {
                    Some(i) => Installation { root: Some(i), ..self }.at(
                        Phase::ProbingDirectory(Directory::Components),
                    ),
                    None => self.failed(InstallError::ProjectNotFound),
                }
            },
            (Phase::ProbingDirectory(directory), Event::Exists(found)) => {
                if found {
                    self.past_directory(directory)
                } else {
                    self.at(Phase::ConfirmingDirectory(directory))
                }
            },
            (Phase::ConfirmingDirectory(directory), Event::Answer(yes)) => {
                if yes {
                    self.at(Phase::CreatingDirectory(directory))
                } else {
                    self.failed(InstallError::UserCancelled)
                }
            },
            (Phase::CreatingDirectory(directory), Event::Done) => self.past_directory(directory),
            (Phase::CreatingDirectory(directory), Event::Failed { path }) => self.failed_on(path, Target::Directory(directory)),
            (Phase::ProbingDestination, Event::Exists(found)) => {
                if found {
                    self.at(Phase::ConfirmingOverwrite)
                } else {
                    self.at(Phase::CopyingComponent)
                }
            },
            (Phase::ConfirmingOverwrite, Event::Answer(yes)) => {
                if yes {
                    self.at(Phase::CopyingComponent)
                } else {
                    self.failed(InstallError::UserCancelled)
                }
            },
            (Phase::CopyingComponent, Event::Done) => self.at(Phase::LoadingConfig),
            (Phase::CopyingComponent, Event::Failed { path }) => self.failed_on(path, Target::Component),
            (Phase::LoadingConfig, Event::ConfigLoaded(config)) => Installation {
                config,
                ..self
            }.to_dependencies(),
            (Phase::LoadingConfig, Event::ConfigMalformed) => self.warned(
                Warning::ConfigParseError,
            ).to_dependencies(),
            (Phase::ConfirmingDependencies, Event::Answer(yes)) => {
                if yes {
                    self.at(Phase::DetectingPackageManager)
                } else {
                    self.to_utilities()
                }
            },
            (Phase::DetectingPackageManager, Event::Listing(names)) => Installation {
                manager: get_package_manager(&names).to_owned(),
                ..self
            }.at(Phase::InstallingDependencies),
            (Phase::InstallingDependencies, Event::Exit { success }) => {
                if success {
                    self.to_utilities()
                } else {
                    self.warned(Warning::DependencyInstallFailed).to_utilities()
                }
            },
            (Phase::ConfirmingUtilities, Event::Answer(yes)) => {
                if yes {
                    self.at(Phase::PreparingUtilities)
                } else {
                    self.to_file(0)
                }
            },
            (Phase::PreparingUtilities, Event::Done) => self.to_utility(0),
            (Phase::PreparingUtilities, Event::Failed { path }) => self.failed_on(path, Target::Directory(Directory::Lib)),
            (Phase::ReadingUtility(i), Event::Utility { aggregate, snippet }) => {
                let count: usize = self.utility_count();
                let written = match &snippet {
                    Some(text) => add_utility(aggregate, Some(text.as_str())),
                    None => add_utility(aggregate, None),
                };
                match written {
                    Some(text) => Installation { text, ..self }.at(Phase::WritingUtility(i)),
                    None => self.to_utility(i + 1),
                }
            },
            (Phase::ReadingUtility(_), Event::Failed { path }) => self.failed_on(path, Target::Utilities),
            (Phase::WritingUtility(i), Event::Done) => {
                let count: usize = self.utility_count();
                self.to_utility(i + 1)
            },
            (Phase::WritingUtility(_), Event::Failed { path }) => self.failed_on(path, Target::Utilities),
            (Phase::PreparingFile(i), Event::Done) => self.at(Phase::CopyingFile(i)),
            (Phase::PreparingFile(_), Event::Failed { path }) => self.failed_on(path, Target::Directory(Directory::Lib)),
            (Phase::CopyingFile(i), Event::Placed { copied }) => {
                let count: usize = self.file_count();
                if copied {
                    self.to_file(i + 1)
                } else {
                    self.warned(Warning::AdditionalFileMissing(i)).to_file(i + 1)
                }
            },
            (Phase::CopyingFile(i), Event::Failed { path }) => self.failed_on(path, Target::AdditionalFile(i)),
            _ => self,
        }
    }
}

} // verus!

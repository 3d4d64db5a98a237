//! What holds of every installation, whatever the caller reports.

use crate::commands::add::{
    ActionView,
    Directory,
    EventView,
    InstallError,
    InstallationView,
    Phase,
    PromptView,
    Warning,
};
use crate::utils::project::{install_verb, nearest_marked, package_manager_of};
use vstd::prelude::*;

verus! {

impl InstallationView {
    /// The state after a run of events, taken in order.
    pub open spec fn after(self, events: Seq<EventView>) -> InstallationView
        decreases events.len(),
    {
        if events.len() == 0 {
            self
        } else {
            self.after(events.drop_last()).advanced(events.last())
        }
    }

    /// Whether the installation never got as far as finding the project.
    pub open spec fn before_project(self) -> bool {
        self.phase is LocatingComponent || self.phase is LocatingProject || self.phase
            == Phase::Finished(Err(InstallError::ComponentNotFound)) || self.phase
            == Phase::Finished(Err(InstallError::ProjectNotFound))
    }

    /// Whether, over the run `events` from this state, the component's own
    /// file was copied: at some point the copy was pending and the caller
    /// reported it done.
    pub open spec fn copied_during(self, events: Seq<EventView>) -> bool {
        exists|k: int|
            0 <= k < events.len() && (#[trigger] self.after(events.take(k))).phase
                is CopyingComponent && events[k] is Done
    }
}

impl InstallationView {
    /// How far the installation has come. The steps up to the metadata
    /// count one each; then each utility counts two (read, write) and each
    /// additional file two (prepare, copy).
    pub open spec fn progress(self) -> nat {
        let utilities = self.utilities().len();
        match self.phase {
            Phase::LocatingComponent => 0,
            Phase::LocatingProject => 1,
            Phase::ProbingDirectory(directory) => if directory == Directory::Components {
                2
            } else {
                5
            },
            Phase::ConfirmingDirectory(directory) => if directory == Directory::Components {
                3
            } else {
                6
            },
            Phase::CreatingDirectory(directory) => if directory == Directory::Components {
                4
            } else {
                7
            },
            Phase::ProbingDestination => 8,
            Phase::ConfirmingOverwrite => 9,
            Phase::CopyingComponent => 10,
            Phase::LoadingConfig => 11,
            Phase::ConfirmingDependencies => 12,
            Phase::DetectingPackageManager => 13,
            Phase::InstallingDependencies => 14,
            Phase::ConfirmingUtilities => 15,
            Phase::PreparingUtilities => 16,
            Phase::ReadingUtility(i) => 17 + 2 * i as nat,
            Phase::WritingUtility(i) => 18 + 2 * i as nat,
            Phase::PreparingFile(i) => 17 + 2 * utilities + 2 * i as nat,
            Phase::CopyingFile(i) => 18 + 2 * utilities + 2 * i as nat,
            Phase::Finished(_) => self.end(),
        }
    }

    /// How far an installation with this metadata can come at most.
    pub open spec fn end(self) -> nat {
        17 + 2 * self.utilities().len() + 2 * self.files().len()
    }

    /// Whether the metadata's lists are of a length that a list in memory
    /// can have.
    pub open spec fn countable(self) -> bool {
        self.utilities().len() <= usize::MAX && self.files().len() <= usize::MAX
    }
}

/// An installation ends. Every event either changes nothing, because it
/// does not answer what is pending, or takes the installation further; and
/// an installation that has not ended is short of its end, which it reaches
/// by ending. So once the metadata is read, no more answers can be taken
/// than the end is away.
pub proof fn every_answer_is_progress(state: InstallationView, event: EventView)
    requires
        state.wf(),
        state.countable(),
    ensures
        state.advanced(event) == state || state.progress() < state.advanced(event).progress(),
        state.phase is Finished <==> state.progress() == state.end(),
        state.progress() <= state.end(),
        !(state.phase is LoadingConfig) ==> state.advanced(event).end() == state.end(),
{
    let next = state.advanced(event);
    let utilities = state.utilities().len();
    let files = state.files().len();
    match state.phase {
        Phase::LoadingConfig => {
            let loaded = match event {
                EventView::ConfigLoaded(config) => InstallationView { config, ..state },
                EventView::ConfigMalformed => state.warned(Warning::ConfigParseError),
                _ => state,
            };
            if next != state {
                assert(next == loaded.to_dependencies());
                assert(next.end() == loaded.end());
                assert(next.progress() >= 12);
            }
        },
        Phase::ConfirmingDependencies
        | Phase::DetectingPackageManager
        | Phase::InstallingDependencies
        | Phase::ConfirmingUtilities
        | Phase::PreparingUtilities => {
            if next != state {
                assert(next.utilities() == state.utilities());
                assert(next.files() == state.files());
                assert(next.progress() >= 13);
            }
        },
        Phase::ReadingUtility(i) | Phase::WritingUtility(i) => {
            if next != state {
                assert(next.utilities() == state.utilities());
                assert(next.files() == state.files());
                assert(next.progress() >= 18 + 2 * i as nat);
            }
        },
        Phase::PreparingFile(i) | Phase::CopyingFile(i) => {
            if next != state {
                assert(next.utilities() == state.utilities());
                assert(next.files() == state.files());
                assert(next.progress() >= 18 + 2 * utilities + 2 * i as nat);
            }
        },
        Phase::Finished(_) => {},
        _ => {
            if next != state {
                assert(next.utilities() == state.utilities());
                assert(next.files() == state.files());
            }
        },
    }
}

/// Every step leaves the installation in a state that it can be in.
pub proof fn advanced_is_well_formed(state: InstallationView, event: EventView)
    requires
        state.wf(),
    ensures
        state.advanced(event).wf(),
{
}

/// An installation that has ended stays as it is: whatever is reported to
/// it, it keeps saying how it ended.
pub proof fn finished_is_final(state: InstallationView, events: Seq<EventView>)
    requires
        state.phase is Finished,
    ensures
        state.after(events) == state,
        state.after(events).pending() is Finish,
        !state.after(events).pending().mutates(),
    decreases events.len(),
{
    if events.len() > 0 {
        finished_is_final(state, events.drop_last());
    }
}

/// A component without a source file in the template store is not found, and
/// nothing is changed: the installation begins by looking, and once it has
/// heard that the source is missing, all it ever asks for is to finish with
/// that error.
pub proof fn missing_source_is_not_found(name: Seq<char>, config: bool, later: Seq<EventView>)
    ensures
        InstallationView::start(name).pending() is LocateComponent,
        !InstallationView::start(name).pending().mutates(),
        InstallationView::start(name).advanced(
            EventView::ComponentLocated { source: false, config },
        ).after(later).pending() == ActionView::Finish(Err(InstallError::ComponentNotFound)),
        !InstallationView::start(name).advanced(
            EventView::ComponentLocated { source: false, config },
        ).after(later).pending().mutates(),
{
    let state = InstallationView::start(name).advanced(
        EventView::ComponentLocated { source: false, config },
    );
    finished_is_final(state, later);
}

/// Without a project marker in the start directory or above it, the project
/// is not found, and all the installation ever asks for again is to finish
/// with that error.
pub proof fn missing_project_is_not_found(
    state: InstallationView,
    markers: Seq<bool>,
    later: Seq<EventView>,
)
    requires
        state.phase is LocatingProject,
        forall|i: int| 0 <= i < markers.len() ==> !markers[i],
    ensures
        state.advanced(EventView::ProjectSearched { markers }).after(later).pending()
            == ActionView::Finish(Err(InstallError::ProjectNotFound)),
{
    crate::utils::project::nearest_marked_is_first(markers);
    finished_is_final(state.advanced(EventView::ProjectSearched { markers }), later);
}

/// Every state of a run from the start is one that an installation can be
/// in.
pub proof fn run_is_well_formed(name: Seq<char>, events: Seq<EventView>)
    ensures
        InstallationView::start(name).after(events).wf(),
    decreases events.len(),
{
    if events.len() > 0 {
        run_is_well_formed(name, events.drop_last());
        advanced_is_well_formed(
            InstallationView::start(name).after(events.drop_last()),
            events.last(),
        );
    }
}

/// A step keeps the project root unknown exactly as long as the
/// installation has not got past looking for it.
proof fn step_before_project(state: InstallationView, event: EventView)
    requires
        state.root is None <==> state.before_project(),
    ensures
        state.advanced(event).root is None <==> state.advanced(event).before_project(),
{
    match state.phase {
        Phase::LocatingComponent => {},
        Phase::LocatingProject => {},
        Phase::Finished(_) => {},
        _ => {
            assert(state.advanced(event).root == state.root);
            assert(!state.advanced(event).before_project());
        },
    }
}

/// Nothing is changed before both the component and the project have been
/// found: as long as no project root is known, no action that the
/// installation asks for mutates anything.
pub proof fn quiet_before_project(name: Seq<char>, events: Seq<EventView>)
    ensures
        InstallationView::start(name).after(events).root is None
            <==> InstallationView::start(name).after(events).before_project(),
        InstallationView::start(name).after(events).root is None
            ==> !InstallationView::start(name).after(events).pending().mutates(),
    decreases events.len(),
{
    if events.len() > 0 {
        quiet_before_project(name, events.drop_last());
        step_before_project(InstallationView::start(name).after(events.drop_last()), events.last());
    }
}

/// Declining to create a directory, or to overwrite the component, cancels
/// the installation: all it ever asks for again is to finish with that
/// error, so nothing more is changed.
pub proof fn declined_is_cancelled(state: InstallationView, later: Seq<EventView>)
    requires
        state.phase is ConfirmingDirectory || state.phase is ConfirmingOverwrite,
    ensures
        state.advanced(EventView::Answer(false)).after(later).pending() == ActionView::Finish(
            Err(InstallError::UserCancelled),
        ),
{
    finished_is_final(state.advanced(EventView::Answer(false)), later);
}

/// Installing again over an installed component, and declining to overwrite
/// it, changes nothing: with the component and the project found and both
/// directories and the component's file in place, no action asked for
/// mutates anything, and the installation ends as cancelled.
pub proof fn declined_rerun_changes_nothing(
    name: Seq<char>,
    config: bool,
    markers: Seq<bool>,
    later: Seq<EventView>,
)
    requires
        nearest_marked(markers) is Some,
    ensures
        ({
            let located = InstallationView::start(name).advanced(
                EventView::ComponentLocated { source: true, config },
            );
            let rooted = located.advanced(EventView::ProjectSearched { markers });
            let components = rooted.advanced(EventView::Exists(true));
            let ui = components.advanced(EventView::Exists(true));
            let present = ui.advanced(EventView::Exists(true));
            let declined = present.advanced(EventView::Answer(false));
            &&& !InstallationView::start(name).pending().mutates()
            &&& !located.pending().mutates()
            &&& !rooted.pending().mutates()
            &&& !components.pending().mutates()
            &&& !ui.pending().mutates()
            &&& !present.pending().mutates()
            &&& declined.after(later).pending() == ActionView::Finish(
                Err(InstallError::UserCancelled),
            )
        }),
{
    let located = InstallationView::start(name).advanced(
        EventView::ComponentLocated { source: true, config },
    );
    let rooted = located.advanced(EventView::ProjectSearched { markers });
    let components = rooted.advanced(EventView::Exists(true));
    let ui = components.advanced(EventView::Exists(true));
    let present = ui.advanced(EventView::Exists(true));
    let declined = present.advanced(EventView::Answer(false));
    assert(rooted.phase == Phase::ProbingDirectory(Directory::Components));
    assert(components.phase == Phase::ProbingDirectory(Directory::Ui));
    assert(ui.phase == Phase::ProbingDestination);
    assert(present.phase == Phase::ConfirmingOverwrite);
    finished_is_final(declined, later);
}

/// Once the component's own file has been copied, the installation stands:
/// what follows can add warnings or fail on a later directory, write or
/// copy, and can no longer end as not found or cancelled.
pub proof fn copied_stays_copied(state: InstallationView, event: EventView)
    requires
        state.phase.after_copy(),
    ensures
        state.advanced(event).phase.after_copy(),
{
}

/// An installation reports success only where the component's own file was
/// copied: a run that is past the copy, and so any run that ends well, holds
/// a moment at which the copy was pending and was reported done.
pub proof fn success_means_copied(name: Seq<char>, events: Seq<EventView>)
    ensures
        InstallationView::start(name).after(events).phase.after_copy()
            ==> InstallationView::start(name).copied_during(events),
        InstallationView::start(name).after(events).phase == Phase::Finished(Ok(()))
            ==> InstallationView::start(name).copied_during(events),
    decreases events.len(),
{
    let start = InstallationView::start(name);
    if events.len() > 0 {
        let front = events.drop_last();
        success_means_copied(name, front);
        run_is_well_formed(name, front);
        if start.after(events).phase.after_copy() {
            if start.after(front).phase.after_copy() {
                let k: int = choose|k: int|
                    0 <= k < front.len() && (#[trigger] start.after(front.take(k))).phase
                        is CopyingComponent && front[k] is Done;
                assert(events.take(k) =~= front.take(k));
                assert(events[k] == front[k]);
            } else {
                let k: int = front.len() as int;
                assert(events.take(k) =~= front);
                assert(start.after(front).phase is CopyingComponent);
                assert(events[k] is Done);
            }
        }
    }
}

/// What is only worth a warning does not stop the installation or change
/// its course. Metadata that cannot be understood counts as no metadata; a
/// package manager that fails counts as one that succeeded; an additional
/// file without a source counts as one that was copied. Each leaves its
/// warning behind, and nothing else.
pub proof fn warnings_change_nothing_else(state: InstallationView)
    ensures
        state.phase is LoadingConfig && state.config is None ==> state.advanced(
            EventView::ConfigMalformed,
        ) == state.advanced(EventView::ConfigLoaded(None)).warned(Warning::ConfigParseError),
        state.phase is InstallingDependencies ==> state.advanced(
            EventView::Exit { success: false },
        ) == state.advanced(EventView::Exit { success: true }).warned(
            Warning::DependencyInstallFailed,
        ),
        state.phase matches Phase::CopyingFile(i) ==> state.advanced(
            EventView::Placed { copied: false },
        ) == state.advanced(EventView::Placed { copied: true }).warned(
            Warning::AdditionalFileMissing(i),
        ),
{
}

/// The package manager is run with its own verb followed by every package
/// that the metadata lists, in the order listed, once the user has agreed
/// to it; a user who declines is taken straight on to what comes after.
pub proof fn installer_gets_every_package(state: InstallationView, names: Seq<Seq<char>>)
    requires
        state.phase is ConfirmingDependencies,
    ensures
        state.pending() == (ActionView::Confirm {
            prompt: PromptView::InstallDependencies(state.packages()),
            default: true,
        }),
        !(state.advanced(EventView::Answer(false)).pending() is ListProjectRoot),
        !(state.advanced(EventView::Answer(false)).pending() is RunInstaller),
        state.advanced(EventView::Answer(true)).pending() == ActionView::ListProjectRoot,
        state.advanced(EventView::Answer(true)).advanced(EventView::Listing(names)).pending()
            == (ActionView::RunInstaller {
            program: package_manager_of(names),
            args: seq![install_verb(package_manager_of(names))] + state.packages(),
        }),
{
}

} // verus!

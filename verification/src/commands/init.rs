//! Preparing a host project for components.

use crate::commands::add::{Directory, InstallError};
use vstd::prelude::*;

verus! {

/// The utility file that a fresh `lib` directory gets.
pub const BASIC_UTILS: &'static str =
    "import { type ClassValue, clsx } from \"clsx\";\nimport { twMerge } from \"tailwind-merge\";\n\n/**\n * Combines class names with tailwind-merge\n */\nexport function cn(...inputs: ClassValue[]) {\n  return twMerge(clsx(inputs));\n}\n";

/// Which of its directories a host project has.
#[derive(Debug, Clone, Copy, PartialEq, Eq, Structural)]
pub struct ProjectLayout {
    pub components: bool,
    pub ui: bool,
    pub lib: bool,
}

/// One step of preparing a project.
#[derive(Debug, Clone, Copy, PartialEq, Eq, Structural)]
pub enum InitStep {
    /// Create the directory.
    Create(Directory),
    /// Say that the directory exists already.
    Existing(Directory),
    /// Write [`BASIC_UTILS`] to `utils.ts` in `lib`.
    WriteBasicUtils,
}

/// The steps that prepare a project with this layout, in order. The
/// component directories are created where they are missing; `lib` is
/// created where it is missing and is then given its utility file; a `lib`
/// that exists is left alone.
pub open spec fn init_steps(layout: ProjectLayout) -> Seq<InitStep> {
    let components = if layout.components {
        Seq::<InitStep>::empty()
    } else {
        seq![InitStep::Create(Directory::Components)]
    };
    let ui = if layout.ui {
        seq![InitStep::Existing(Directory::Ui)]
    } else {
        seq![InitStep::Create(Directory::Ui)]
    };
    let lib = if layout.lib {
        Seq::<InitStep>::empty()
    } else {
        seq![InitStep::Create(Directory::Lib), InitStep::WriteBasicUtils]
    };
    components + ui + lib
}

/// Plans the preparation of a host project. `layout` is what the project
/// has, absent where no project was found. Fails exactly then, with
/// [`InstallError::ProjectNotFound`].
pub fn init_components_directory(layout: Option<ProjectLayout>) -> (plan: Result<
    Vec<InitStep>,
    InstallError,
>)
    ensures
        layout is None ==> plan == Err::<Vec<InitStep>, _>(InstallError::ProjectNotFound),
        layout matches Some(found) ==> plan matches Ok(steps) && steps@ == init_steps(found),
{
    match layout {
        None => Err(InstallError::ProjectNotFound),
        Some(found) => {
            let mut steps: Vec<InitStep> = Vec::new();
            if !found.components {
                steps.push(InitStep::Create(Directory::Components));
            }
            if found.ui {
                steps.push(InitStep::Existing(Directory::Ui));
            } else {
                steps.push(InitStep::Create(Directory::Ui));
            }
            if !found.lib {
                steps.push(InitStep::Create(Directory::Lib));
                steps.push(InitStep::WriteBasicUtils);
            }
            assert(steps@ =~= init_steps(found));
            Ok(steps)
        },
    }
}

} // verus!

use vstd::prelude::*;

verus! {

/// A file that travels with a component besides its own source.
#[derive(Debug, Clone, PartialEq, Eq)]
pub struct AdditionalFile {
    /// Path of the file inside the template store's `utils` area.
    pub source: String,
    /// Name to give the file in the host project, in place of the source's.
    pub dest: Option<String>,
    /// What the file is for; shown, never interpreted.
    pub description: Option<String>,
}

/// Metadata of one installable component. Every part may be absent, and a
/// component may have no metadata at all.
#[derive(Debug, Clone, PartialEq, Eq)]
pub struct ComponentConfig {
    /// What the component is; shown, never interpreted.
    pub description: Option<String>,
    /// Packages the component needs, in the order given.
    pub dependencies: Option<Vec<String>>,
    /// Shared utility snippets the component needs, in the order given.
    pub utils: Option<Vec<String>>,
    /// Further files to place, in the order given.
    pub additional_files: Option<Vec<AdditionalFile>>,
}

/// What an [`AdditionalFile`] holds, as mathematical values.
pub ghost struct AdditionalFileView {
    pub source: Seq<char>,
    pub dest: Option<Seq<char>>,
    pub description: Option<Seq<char>>,
}

/// What a [`ComponentConfig`] holds, as mathematical values.
pub ghost struct ComponentConfigView {
    pub description: Option<Seq<char>>,
    pub dependencies: Option<Seq<Seq<char>>>,
    pub utils: Option<Seq<Seq<char>>>,
    pub additional_files: Option<Seq<AdditionalFileView>>,
}

impl View for AdditionalFile {
    type V = AdditionalFileView;

    open spec fn view(&self) -> AdditionalFileView {
        AdditionalFileView {
            source: self.source@,
            dest: self.dest.deep_view(),
            description: self.description.deep_view(),
        }
    }
}

impl DeepView for AdditionalFile {
    type V = AdditionalFileView;

    open spec fn deep_view(&self) -> AdditionalFileView {
        self@
    }
}

impl View for ComponentConfig {
    type V = ComponentConfigView;

    open spec fn view(&self) -> ComponentConfigView {
        ComponentConfigView {
            description: self.description.deep_view(),
            dependencies: self.dependencies.deep_view(),
            utils: self.utils.deep_view(),
            additional_files: self.additional_files.deep_view(),
        }
    }
}

impl DeepView for ComponentConfig {
    type V = ComponentConfigView;

    open spec fn deep_view(&self) -> ComponentConfigView {
        self@
    }
}

impl ComponentConfigView {
    /// The packages listed, none where the list is absent.
    pub open spec fn packages(self) -> Seq<Seq<char>> {
        match self.dependencies {
            Some(list) => list,
            None => Seq::empty(),
        }
    }

    /// The utility names listed, none where the list is absent.
    pub open spec fn utilities(self) -> Seq<Seq<char>> {
        match self.utils {
            Some(list) => list,
            None => Seq::empty(),
        }
    }

    /// The additional files listed, none where the list is absent.
    pub open spec fn files(self) -> Seq<AdditionalFileView> {
        match self.additional_files {
            Some(list) => list,
            None => Seq::empty(),
        }
    }
}

} // verus!

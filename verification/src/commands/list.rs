//! Listing the components that a template store offers.

use crate::models::component::{ComponentConfig, ComponentConfigView};
use crate::models::entry::PathKind;
use vstd::prelude::*;
use vstd::string::StringExecFns;

verus! {

/// A component of the template store with its metadata, if it has any.
#[derive(Debug, Clone, PartialEq, Eq)]
pub struct Available {
    pub name: String,
    pub config: Option<ComponentConfig>,
}

pub ghost struct AvailableView {
    pub name: Seq<char>,
    pub config: Option<ComponentConfigView>,
}

impl View for Available {
    type V = AvailableView;

    open spec fn view(&self) -> AvailableView {
        AvailableView { name: self.name@, config: self.config.deep_view() }
    }
}

impl DeepView for Available {
    type V = AvailableView;

    open spec fn deep_view(&self) -> AvailableView {
        self@
    }
}

/// How a component is shown in the listing.
#[derive(Debug, Clone, PartialEq, Eq)]
pub struct Listed {
    pub name: String,
    /// Its packages, separated by commas, where it needs any.
    pub dependencies: Option<String>,
    /// Its utilities, separated by commas, where it needs any.
    pub utils: Option<String>,
}

pub ghost struct ListedView {
    pub name: Seq<char>,
    pub dependencies: Option<Seq<char>>,
    pub utils: Option<Seq<char>>,
}

impl View for Listed {
    type V = ListedView;

    open spec fn view(&self) -> ListedView {
        ListedView {
            name: self.name@,
            dependencies: self.dependencies.deep_view(),
            utils: self.utils.deep_view(),
        }
    }
}

impl DeepView for Listed {
    type V = ListedView;

    open spec fn deep_view(&self) -> ListedView {
        self@
    }
}

/// What there is to show.
#[derive(Debug, Clone, PartialEq, Eq)]
pub enum Listing {
    /// There is no template store.
    TemplatesMissing,
    /// The template store holds no component.
    NoComponents,
    /// The components, in the order given.
    Components(Vec<Listed>),
}

pub ghost enum ListingView {
    TemplatesMissing,
    NoComponents,
    Components(Seq<ListedView>),
}

impl View for Listing {
    type V = ListingView;

    open spec fn view(&self) -> ListingView {
        match self {
            Listing::TemplatesMissing => ListingView::TemplatesMissing,
            Listing::NoComponents => ListingView::NoComponents,
            Listing::Components(components) => ListingView::Components(components.deep_view()),
        }
    }
}

/// The parts in order, with the separator between each two.
pub open spec fn joined(parts: Seq<Seq<char>>, separator: Seq<char>) -> Seq<char>
    decreases parts.len(),
{
    if parts.len() == 0 {
        Seq::empty()
    } else if parts.len() == 1 {
        parts[0]
    } else {
        joined(parts.drop_last(), separator) + separator + parts.last()
    }
}

/// The line for a list of names: the names separated by commas, and no line
/// for an empty list.
pub open spec fn line(names: Seq<Seq<char>>) -> Option<Seq<char>> {
    if names.len() > 0 {
        Some(joined(names, ", "@))
    } else {
        None
    }
}

/// How a component is shown: with a line for its packages and one for its
/// utilities, as far as its metadata lists any.
pub open spec fn listed(component: AvailableView) -> ListedView {
    match component.config {
        Some(config) => ListedView {
            name: component.name,
            dependencies: line(config.packages()),
            utils: line(config.utilities()),
        },
        None => ListedView { name: component.name, dependencies: None, utils: None },
    }
}

/// What there is to show of a template store found as `templates`, with
/// these components.
pub open spec fn listing(templates: PathKind, components: Seq<AvailableView>) -> ListingView {
    if templates == PathKind::Missing {
        ListingView::TemplatesMissing
    } else if components.len() == 0 {
        ListingView::NoComponents
    } else {
        ListingView::Components(Seq::new(components.len(), |i: int| listed(components[i])))
    }
}

/// The line for a list of names that may be absent.
fn line_of(names: &Option<Vec<String>>) -> (text: Option<String>)
    ensures
        text.deep_view() == line(
            match names.deep_view() {
                Some(list) => list,
                None => Seq::empty(),
            },
        ),
{
    match names {
        None => None,
        Some(list) => {
            if list.len() == 0 {
                return None;
            }
            let mut text: String = list[0].clone();
            let mut i: usize = 1;
            assert(list.deep_view().take(1) =~= seq![list[0]@]);
            while i < list.len()
                invariant
                    1 <= i <= list.len(),
                    text@ == joined(list.deep_view().take(i as int), ", "@),
                decreases list.len() - i,
            {
                proof {
                    let upto = list.deep_view().take(i + 1);
                    assert(upto.drop_last() =~= list.deep_view().take(i as int));
                    assert(upto.last() == list[i as int]@);
                }
                text.append(", ");
                text.append(list[i].as_str());
                i += 1;
            }
            assert(list.deep_view().take(list.len() as int) =~= list.deep_view());
            Some(text)
        },
    }
}

/// How one component is shown.
fn show(component: &Available) -> (shown: Listed)
    ensures
        shown@ == listed(component@),
{
    match &component.config {
        Some(config) => Listed {
            name: component.name.clone(),
            dependencies: line_of(&config.dependencies),
            utils: line_of(&config.utils),
        },
        None => Listed { name: component.name.clone(), dependencies: None, utils: None },
    }
}

/// Lists the components of a template store. `templates` is what was found
/// at the store's path; `components` are its components, each with its
/// metadata, in the order in which they are to be shown.
pub fn list_components(templates: PathKind, components: &Vec<Available>) -> (shown: Listing)
    ensures
        shown@ == listing(templates, components.deep_view()),
{
    if templates == PathKind::Missing {
        return Listing::TemplatesMissing;
    }
    if components.len() == 0 {
        return Listing::NoComponents;
    }
    let mut lines: Vec<Listed> = Vec::new();
    let mut i: usize = 0;
    while i < components.len()
        invariant
            i <= components.len(),
            lines.len() == i,
            forall|j: int| 0 <= j < i ==> lines[j]@ == listed(components[j]@),
        decreases components.len() - i,
    {
        lines.push(show(&components[i]));
        i += 1;
    }
    assert(lines.deep_view() =~= Seq::new(
        components.len() as nat,
        |i: int| listed(components.deep_view()[i]),
    ));
    Listing::Components(lines)
}

} // verus!

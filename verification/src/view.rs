//! The pure renderer: a function from the current state to a document
//! structure. The document holds everything the pages decide — which
//! projects appear where, every link, the overlay's visibility — as plain
//! values; turning it into DOM nodes and wiring the event bindings is
//! browser glue outside the library.

use vstd::prelude::*;
use crate::project::{ProjectView, search_results_of, search_filter};
use crate::page::partial::{ProjectCard, ProjectCardView, Category, CategoryView, cards_of,
    views_of_cards, view_projects};
use crate::page::home::{FeaturedCard, FeaturedCardView, ListEntry, ListEntryView,
    views_of_featured, views_of_entries, home_sections};
use crate::page::tags::tag_sections;
use crate::page::{home, tags};
use crate::router::{Url, UrlView, PageView};
use crate::state::{Model, ModelView};

verus! {

/// One section of a page, in document order.
#[derive(Debug, PartialEq, Eq)]
pub enum Section {
    /// The hero banner (static copy).
    Hero,
    /// The featured projects, one card per well-featured project.
    Featured(Vec<FeaturedCard>),
    /// The Blender collaboration section with its projects' cards.
    Blender(Vec<ProjectCard>),
    /// The Rust section with its category listing.
    Rust(Category),
    /// The remaining curated category listings.
    Categories(Vec<Category>),
    /// The sponsorship logos (static copy).
    Sponsorship,
    /// The alphabetical project list.
    ProjectList(Vec<ListEntry>),
    /// The newsletter archive (static copy).
    Newsletter,
    /// The contribution call (static copy).
    Contribute,
    /// The link back to the home page.
    Back(Url),
    /// The single category listing of the tag-filtered page.
    TagListing(Category),
}

/// Mathematical image of a `Section`.
pub ghost enum SectionView {
    Hero,
    Featured(Seq<FeaturedCardView>),
    Blender(Seq<ProjectCardView>),
    Rust(CategoryView),
    Categories(Seq<CategoryView>),
    Sponsorship,
    ProjectList(Seq<ListEntryView>),
    Newsletter,
    Contribute,
    Back(UrlView),
    TagListing(CategoryView),
}

impl View for Section {
    type V = SectionView;

    open spec fn view(&self) -> SectionView {
        match self {
            Section::Hero => SectionView::Hero,
            Section::Featured(cards) => SectionView::Featured(views_of_featured(cards@)),
            Section::Blender(cards) => SectionView::Blender(views_of_cards(cards@)),
            Section::Rust(category) => SectionView::Rust(category@),
            Section::Categories(cs) => SectionView::Categories(
                cs@.map_values(|c: Category| c@),
            ),
            Section::Sponsorship => SectionView::Sponsorship,
            Section::ProjectList(entries) => SectionView::ProjectList(views_of_entries(entries@)),
            Section::Newsletter => SectionView::Newsletter,
            Section::Contribute => SectionView::Contribute,
            Section::Back(url) => SectionView::Back(url@),
            Section::TagListing(category) => SectionView::TagListing(category@),
        }
    }
}

/// The images of a vector of sections.
pub open spec fn views_of_sections(ss: Seq<Section>) -> Seq<SectionView> {
    ss.map_values(|s: Section| s@)
}

/// The search overlay: its visibility, the query as typed, and one card per
/// matching project, in collection order.
#[derive(Debug, PartialEq, Eq)]
pub struct SearchOverlay {
    pub visible: bool,
    pub query: String,
    pub results: Vec<ProjectCard>,
}

/// Mathematical image of a `SearchOverlay`.
#[verifier::ext_equal]
pub ghost struct SearchOverlayView {
    pub visible: bool,
    pub query: Seq<char>,
    pub results: Seq<ProjectCardView>,
}

impl View for SearchOverlay {
    type V = SearchOverlayView;

    open spec fn view(&self) -> SearchOverlayView {
        SearchOverlayView {
            visible: self.visible,
            query: self.query@,
            results: views_of_cards(self.results@),
        }
    }
}

/// What the overlay shows for a given state: the live name-filtered cards.
pub open spec fn search_overlay_of(m: ModelView) -> SearchOverlayView {
    SearchOverlayView {
        visible: m.show_search,
        query: m.search_query,
        results: cards_of(search_results_of(m.projects, m.search_query)),
    }
}

/// A rendered document: the search overlay and the current page's sections.
/// The fixed header with its search toggle sits above both pages and
/// carries no state.
#[derive(Debug, PartialEq, Eq)]
pub struct Document {
    pub search: SearchOverlay,
    pub body: Vec<Section>,
}

/// Mathematical image of a `Document`.
#[verifier::ext_equal]
pub ghost struct DocumentView {
    pub search: SearchOverlayView,
    pub body: Seq<SectionView>,
}

impl View for Document {
    type V = DocumentView;

    open spec fn view(&self) -> DocumentView {
        DocumentView { search: self.search@, body: views_of_sections(self.body@) }
    }
}

/// The document a state renders to: a pure function of the collection, the
/// page variant and the search state.
pub open spec fn render(m: ModelView) -> DocumentView {
    DocumentView {
        search: search_overlay_of(m),
        body: match m.page {
            PageView::Home => home_sections(m.projects),
            PageView::Tags(tag) => tag_sections(tag, m.projects),
        },
    }
}

/// Render the current state. The result is exactly `render` of the state's
/// image, so rendering never mutates the state and equal states render to
/// equal documents.
pub fn view(model: &Model) -> (doc: Document)
    ensures
        doc@ == render(model@),
{
    let results = search_filter(model.search_query.as_str(), &model.data.projects);
    let search = SearchOverlay {
        visible: model.show_search,
        query: model.search_query.clone(),
        results: view_projects(&results),
    };
    proof {
        assert(search@ =~= search_overlay_of(model@));
    }
    let body = match &model.page {
        crate::router::Page::Home => home::view(&model.data.projects),
        crate::router::Page::Tags(tag) => tags::view(tag.as_str(), &model.data.projects),
    };
    let doc = Document { search, body };
    proof {
        assert(doc@ =~= render(model@));
    }
    doc
}

/// Re-rendering is idempotent: two states with the same image — the same
/// collection, page and search state — render to the same document.
pub proof fn lemma_render_idempotent(m1: ModelView, m2: ModelView)
    requires
        m1 == m2,
    ensures
        render(m1) == render(m2),
{
}

} // verus!

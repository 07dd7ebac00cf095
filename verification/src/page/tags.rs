//! The tag-filtered page: a link back home and a single category listing
//! the projects carrying the selected tag.

use vstd::prelude::*;
use crate::project::{Project, views_of, projects_with_tag, iter_projects_by_tag};
use crate::page::partial::{view_category, category_of};
use crate::router::{Urls, home_url};
use crate::view::{Section, SectionView, views_of_sections};

verus! {

/// The tag page's sections, in document order: the back link to home, then
/// the category for the selected tag over the projects carrying it, in
/// collection order.
pub open spec fn tag_sections(tag: Seq<char>, ps: Seq<crate::project::ProjectView>)
    -> Seq<SectionView> {
    seq![
        SectionView::Back(home_url()),
        SectionView::TagListing(category_of(tag, projects_with_tag(ps, tag))),
    ]
}

/// Render the tag-filtered page.
pub fn view(tag: &str, projects: &Vec<Project>) -> (r: Vec<Section>)
    ensures
        views_of_sections(r@) == tag_sections(tag@, views_of(projects@)),
{
    let mut r: Vec<Section> = Vec::new();
    r.push(Section::Back(Urls::new().home()));
    r.push(Section::TagListing(view_category(tag, &iter_projects_by_tag(projects, tag))));
    proof {
        assert(views_of_sections(r@) =~= tag_sections(tag@, views_of(projects@)));
    }
    r
}

} // verus!

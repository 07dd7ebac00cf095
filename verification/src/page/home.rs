//! The home page: a fixed sequence of marketing sections interleaved with
//! the dynamic listings — featured projects, curated per-tag categories,
//! and the alphabetical project list.

use vstd::prelude::*;
use crate::project::{Project, ProjectView, views_of, projects_with_tag, iter_projects_by_tag};
use crate::page::partial::{TagLink, TagLinkView, tag_links_of, views_of_tag_links, repo_url,
    repo_url_of, view_tags, view_project, view_projects, view_category, cards_of, category_of};
use crate::view::{Section, SectionView, views_of_sections};

verus! {

/// A project rendered in the featured section: the repository link, the
/// background image, emoji and name, the extended description, and the tag
/// links.
#[derive(Debug, PartialEq, Eq)]
pub struct FeaturedCard {
    pub href: String,
    pub background_image: String,
    pub emoji: String,
    pub name: String,
    pub extended_description: String,
    pub tags: Vec<TagLink>,
}

/// Mathematical image of a `FeaturedCard`.
#[verifier::ext_equal]
pub ghost struct FeaturedCardView {
    pub href: Seq<char>,
    pub background_image: Seq<char>,
    pub emoji: Seq<char>,
    pub name: Seq<char>,
    pub extended_description: Seq<char>,
    pub tags: Seq<TagLinkView>,
}

impl View for FeaturedCard {
    type V = FeaturedCardView;

    open spec fn view(&self) -> FeaturedCardView {
        FeaturedCardView {
            href: self.href@,
            background_image: self.background_image@,
            emoji: self.emoji@,
            name: self.name@,
            extended_description: self.extended_description@,
            tags: views_of_tag_links(self.tags@),
        }
    }
}

/// A project may appear in the featured section only when it is flagged and
/// carries both of the fields that section needs.
pub open spec fn is_well_featured(p: ProjectView) -> bool {
    &&& p.featured
    &&& p.extended_description is Some
    &&& p.feature_image is Some
}

/// The featured card of a well-featured project.
pub open spec fn featured_card_of(p: ProjectView) -> FeaturedCardView
    recommends
        is_well_featured(p),
{
    FeaturedCardView {
        href: repo_url_of(p.name),
        background_image: p.feature_image.unwrap(),
        emoji: p.emoji,
        name: p.name,
        extended_description: p.extended_description.unwrap(),
        tags: tag_links_of(p.tags),
    }
}

/// The featured section's cards: one per well-featured project, in
/// collection order. A project flagged `featured` but missing either
/// optional field is skipped here — a data-integrity condition the
/// surrounding runtime reports — and nowhere else.
pub open spec fn featured_cards_of(ps: Seq<ProjectView>) -> Seq<FeaturedCardView>
    decreases ps.len(),
{
    if ps.len() == 0 {
        Seq::empty()
    } else {
        let rest = featured_cards_of(ps.drop_last());
        if is_well_featured(ps.last()) {
            rest.push(featured_card_of(ps.last()))
        } else {
            rest
        }
    }
}

/// The images of a vector of featured cards.
pub open spec fn views_of_featured(cs: Seq<FeaturedCard>) -> Seq<FeaturedCardView> {
    cs.map_values(|c: FeaturedCard| c@)
}

/// Render the featured section's cards.
pub fn featured_cards(projects: &Vec<Project>) -> (r: Vec<FeaturedCard>)
    ensures
        views_of_featured(r@) == featured_cards_of(views_of(projects@)),
{
    let ghost vs = views_of(projects@);
    let mut r: Vec<FeaturedCard> = Vec::new();
    let mut i: usize = 0;
    proof {
        assert(views_of_featured(r@) =~= featured_cards_of(vs.take(0)));
    }
    while i < projects.len()
        invariant
            i <= projects.len(),
            vs == views_of(projects@),
            vs.len() == projects@.len(),
            views_of_featured(r@) =~= featured_cards_of(vs.take(i as int)),
        decreases projects.len() - i,
    {
        let ghost old_r = r@;
        let p = &projects[i];
        if p.featured {
            match (&p.extended_description, &p.feature_image) {
                (Option::Some(ext), Option::Some(img)) => {
                    let card = FeaturedCard {
                        href: repo_url(p.name.as_str()),
                        background_image: img.clone(),
                        emoji: p.emoji.clone(),
                        name: p.name.clone(),
                        extended_description: ext.clone(),
                        tags: view_tags(&p.tags),
                    };
                    proof {
                        assert(is_well_featured(vs[i as int]));
                        assert(card@ =~= featured_card_of(vs[i as int]));
                    }
                    r.push(card);
                    proof {
                        assert(views_of_featured(r@)
                            =~= views_of_featured(old_r).push(featured_card_of(vs[i as int])));
                    }
                },
                _ => {
                    proof {
                        assert(!is_well_featured(vs[i as int]));
                    }
                },
            }
        } else {
            proof {
                assert(!is_well_featured(vs[i as int]));
            }
        }
        proof {
            assert(vs.take(i + 1).drop_last() =~= vs.take(i as int));
            assert(vs.take(i + 1).last() == vs[i as int]);
        }
        i += 1;
    }
    proof {
        assert(vs.take(projects@.len() as int) =~= vs);
    }
    r
}

/// One row of the alphabetical project list: the repository link, emoji and
/// name, and the tag links.
#[derive(Debug, PartialEq, Eq)]
pub struct ListEntry {
    pub href: String,
    pub emoji: String,
    pub name: String,
    pub tags: Vec<TagLink>,
}

/// Mathematical image of a `ListEntry`.
#[verifier::ext_equal]
pub ghost struct ListEntryView {
    pub href: Seq<char>,
    pub emoji: Seq<char>,
    pub name: Seq<char>,
    pub tags: Seq<TagLinkView>,
}

impl View for ListEntry {
    type V = ListEntryView;

    open spec fn view(&self) -> ListEntryView {
        ListEntryView {
            href: self.href@,
            emoji: self.emoji@,
            name: self.name@,
            tags: views_of_tag_links(self.tags@),
        }
    }
}

/// The row a project takes in the alphabetical list.
pub open spec fn list_entry_of(p: ProjectView) -> ListEntryView {
    ListEntryView {
        href: repo_url_of(p.name),
        emoji: p.emoji,
        name: p.name,
        tags: tag_links_of(p.tags),
    }
}

/// The rows of the alphabetical list: one per project, in collection order.
pub open spec fn list_entries_of(ps: Seq<ProjectView>) -> Seq<ListEntryView> {
    ps.map_values(|p: ProjectView| list_entry_of(p))
}

/// The images of a vector of list entries.
pub open spec fn views_of_entries(es: Seq<ListEntry>) -> Seq<ListEntryView> {
    es.map_values(|e: ListEntry| e@)
}

/// Render the alphabetical project list.
pub fn list_entries(projects: &Vec<Project>) -> (r: Vec<ListEntry>)
    ensures
        views_of_entries(r@) == list_entries_of(views_of(projects@)),
{
    let ghost vs = views_of(projects@);
    let mut r: Vec<ListEntry> = Vec::new();
    let mut i: usize = 0;
    proof {
        assert(views_of_entries(r@) =~= list_entries_of(vs.take(0)));
    }
    while i < projects.len()
        invariant
            i <= projects.len(),
            vs == views_of(projects@),
            vs.len() == projects@.len(),
            views_of_entries(r@) =~= list_entries_of(vs.take(i as int)),
        decreases projects.len() - i,
    {
        let p = &projects[i];
        let entry = ListEntry {
            href: repo_url(p.name.as_str()),
            emoji: p.emoji.clone(),
            name: p.name.clone(),
            tags: view_tags(&p.tags),
        };
        proof {
            assert(entry@ =~= list_entry_of(vs[i as int]));
        }
        let ghost old_r = r@;
        r.push(entry);
        proof {
            assert(vs.take(i + 1) =~= vs.take(i as int).push(vs[i as int]));
            crate::text::lemma_map_push(old_r, entry, |e: ListEntry| e@);
            crate::text::lemma_map_push(vs.take(i as int), vs[i as int],
                |p: ProjectView| list_entry_of(p));
            assert(views_of_entries(r@) =~= list_entries_of(vs.take(i + 1)));
        }
        i += 1;
    }
    proof {
        assert(vs.take(projects@.len() as int) =~= vs);
    }
    r
}

/// The home page's sections, in document order: the hero banner, the
/// featured projects, the curated categories for the `blender`, `rust`,
/// `go` and `web` tags (a project may appear in several of them), the
/// sponsorship logos, the alphabetical list, the newsletter archive and the
/// contribution call. The curated listings keep collection order.
pub open spec fn home_sections(ps: Seq<ProjectView>) -> Seq<SectionView> {
    seq![
        SectionView::Hero,
        SectionView::Featured(featured_cards_of(ps)),
        SectionView::Blender(cards_of(projects_with_tag(ps, "blender"@))),
        SectionView::Rust(category_of("rust"@, projects_with_tag(ps, "rust"@))),
        SectionView::Categories(seq![
            category_of("go"@, projects_with_tag(ps, "go"@)),
            category_of("web"@, projects_with_tag(ps, "web"@)),
        ]),
        SectionView::Sponsorship,
        SectionView::ProjectList(list_entries_of(ps)),
        SectionView::Newsletter,
        SectionView::Contribute,
    ]
}

/// Render the home page.
pub fn view(projects: &Vec<Project>) -> (r: Vec<Section>)
    ensures
        views_of_sections(r@) == home_sections(views_of(projects@)),
{
    let ghost vs = views_of(projects@);
    let mut r: Vec<Section> = Vec::new();
    r.push(Section::Hero);
    r.push(Section::Featured(featured_cards(projects)));
    r.push(Section::Blender(view_projects(&iter_projects_by_tag(projects, "blender"))));
    r.push(Section::Rust(view_category("rust", &iter_projects_by_tag(projects, "rust"))));
    let mut curated: Vec<crate::page::partial::Category> = Vec::new();
    curated.push(view_category("go", &iter_projects_by_tag(projects, "go")));
    curated.push(view_category("web", &iter_projects_by_tag(projects, "web")));
    r.push(Section::Categories(curated));
    r.push(Section::Sponsorship);
    r.push(Section::ProjectList(list_entries(projects)));
    r.push(Section::Newsletter);
    r.push(Section::Contribute);
    proof {
        let w = views_of_sections(r@);
        let u = home_sections(vs);
        assert(r@.len() == 9);
        assert(w.len() == u.len());
        assert(curated@.map_values(|c: crate::page::partial::Category| c@) =~= seq![
            category_of("go"@, projects_with_tag(vs, "go"@)),
            category_of("web"@, projects_with_tag(vs, "web"@)),
        ]);
        assert(w[0] == u[0]);
        assert(w[1] == u[1]);
        assert(w[2] == u[2]);
        assert(w[3] == u[3]);
        assert(w[4] == u[4]);
        assert(w[5] == u[5]);
        assert(w[6] == u[6]);
        assert(w[7] == u[7]);
        assert(w[8] == u[8]);
        assert(w =~= u);
    }
    r
}

/// The featured-section skip rule: a project flagged `featured` but missing
/// an optional field contributes nothing to the featured section — removing
/// it changes that section's cards not at all — while it still takes its
/// row in the alphabetical list and still appears in every tag listing for
/// a tag it carries.
pub proof fn lemma_featured_skip(ps: Seq<ProjectView>, i: int)
    requires
        0 <= i < ps.len(),
        ps[i].extended_description is None || ps[i].feature_image is None,
    ensures
        featured_cards_of(ps) == featured_cards_of(ps.remove(i)),
        list_entries_of(ps)[i] == list_entry_of(ps[i]),
        forall|tag: Seq<char>|
            ps[i].tags.contains(tag) ==> #[trigger] projects_with_tag(ps, tag).contains(ps[i]),
    decreases ps.len(),
{
    assert(!is_well_featured(ps[i]));
    if i == ps.len() - 1 {
        assert(ps.remove(i) =~= ps.drop_last());
    } else {
        lemma_featured_skip(ps.drop_last(), i);
        assert(ps.remove(i).drop_last() =~= ps.drop_last().remove(i));
        assert(ps.remove(i).last() == ps.last());
    }
    assert forall|tag: Seq<char>| ps[i].tags.contains(tag)
        implies #[trigger] projects_with_tag(ps, tag).contains(ps[i]) by {
        let pred = |p: ProjectView| crate::project::has_tag(p, tag);
        assert(pred(ps[i]));
        ps.lemma_filter_contains(pred, i);
    }
}

} // verus!

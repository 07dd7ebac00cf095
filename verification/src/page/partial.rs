//! Building blocks shared by the pages: project cards, tag links, the star
//! button, and a tag category listing.

use vstd::prelude::*;
use crate::project::{Project, ProjectView, views_of};
use crate::router::{Url, UrlView, Urls, tags_url};
use crate::text::views_of_strings;

verus! {

use vstd::string::StringExecFns;

/// A link from a tag label to that tag's page, built through the same URL
/// builder the router parses, so generation and parsing cannot drift apart.
#[derive(Debug, PartialEq, Eq)]
pub struct TagLink {
    pub label: String,
    pub href: Url,
}

/// Mathematical image of a `TagLink`.
#[verifier::ext_equal]
pub ghost struct TagLinkView {
    pub label: Seq<char>,
    pub href: UrlView,
}

impl View for TagLink {
    type V = TagLinkView;

    open spec fn view(&self) -> TagLinkView {
        TagLinkView { label: self.label@, href: self.href@ }
    }
}

/// The link a tag renders as.
pub open spec fn tag_link_of(tag: Seq<char>) -> TagLinkView {
    TagLinkView { label: tag, href: tags_url(tag) }
}

/// The links a tag list renders as, in order.
pub open spec fn tag_links_of(tags: Seq<Seq<char>>) -> Seq<TagLinkView> {
    tags.map_values(|t: Seq<char>| tag_link_of(t))
}

/// The images of a vector of tag links.
pub open spec fn views_of_tag_links(links: Seq<TagLink>) -> Seq<TagLinkView> {
    links.map_values(|l: TagLink| l@)
}

/// The address of a project's repository.
pub open spec fn repo_url_of(project_name: Seq<char>) -> Seq<char> {
    "https://github.com/EmbarkStudios/"@ + project_name
}

/// The address a project's name links to: its repository.
pub fn repo_url(project_name: &str) -> (r: String)
    ensures
        r@ == repo_url_of(project_name@),
{
    String::from_str("https://github.com/EmbarkStudios/").concat(project_name)
}

/// The address of the embedded star-button frame for a project.
pub open spec fn star_button_src_of(project_name: Seq<char>) -> Seq<char> {
    "https://ghbtns.com/github-btn.html?user=EmbarkStudios&repo="@ + project_name
        + "&type=star&count=true&size=large"@
}

/// The source address of the star-button frame embedded beside a project.
pub fn star_button_src(project_name: &str) -> (r: String)
    ensures
        r@ == star_button_src_of(project_name@),
{
    String::from_str("https://ghbtns.com/github-btn.html?user=EmbarkStudios&repo=")
        .concat(project_name)
        .concat("&type=star&count=true&size=large")
}

/// The embedded frame showing a project's star count.
#[derive(Debug, PartialEq, Eq)]
pub struct StarButton {
    pub src: String,
}

/// Mathematical image of a `StarButton`.
#[verifier::ext_equal]
pub ghost struct StarButtonView {
    pub src: Seq<char>,
}

impl View for StarButton {
    type V = StarButtonView;

    open spec fn view(&self) -> StarButtonView {
        StarButtonView { src: self.src@ }
    }
}

/// The star button a project renders with.
pub open spec fn star_button_of(project_name: Seq<char>) -> StarButtonView {
    StarButtonView { src: star_button_src_of(project_name) }
}

/// The star-button frame for one project.
pub fn view_star_button(project_name: &str) -> (r: StarButton)
    ensures
        r@ == star_button_of(project_name@),
{
    StarButton { src: star_button_src(project_name) }
}

/// The link row for a project's tags: one link per tag, in tag order.
pub fn view_tags(tags: &Vec<String>) -> (r: Vec<TagLink>)
    ensures
        views_of_tag_links(r@) == tag_links_of(views_of_strings(tags@)),
{
    let ghost ts = views_of_strings(tags@);
    let mut r: Vec<TagLink> = Vec::new();
    let mut i: usize = 0;
    proof {
        assert(views_of_tag_links(r@) =~= tag_links_of(ts.take(0)));
    }
    while i < tags.len()
        invariant
            i <= tags.len(),
            ts == views_of_strings(tags@),
            ts.len() == tags@.len(),
            views_of_tag_links(r@) =~= tag_links_of(ts.take(i as int)),
        decreases tags.len() - i,
    {
        let link = TagLink { label: tags[i].clone(), href: Urls::new().tags(tags[i].as_str()) };
        proof {
            assert(link@ =~= tag_link_of(ts[i as int]));
        }
        let ghost old_r = r@;
        r.push(link);
        proof {
            assert(ts.take(i + 1) =~= ts.take(i as int).push(ts[i as int]));
            crate::text::lemma_map_push(old_r, link, |l: TagLink| l@);
            crate::text::lemma_map_push(ts.take(i as int), ts[i as int],
                |t: Seq<char>| tag_link_of(t));
            assert(views_of_tag_links(r@) =~= tag_links_of(ts.take(i + 1)));
        }
        i += 1;
    }
    proof {
        assert(ts.take(tags@.len() as int) =~= ts);
    }
    r
}

/// One project rendered as a card: the repository link, emoji and name, the
/// description (raw markup from the document), the tag links, and the star
/// button.
#[derive(Debug, PartialEq, Eq)]
pub struct ProjectCard {
    pub href: String,
    pub emoji: String,
    pub name: String,
    pub description: String,
    pub tags: Vec<TagLink>,
    pub star: StarButton,
}

/// Mathematical image of a `ProjectCard`.
#[verifier::ext_equal]
pub ghost struct ProjectCardView {
    pub href: Seq<char>,
    pub emoji: Seq<char>,
    pub name: Seq<char>,
    pub description: Seq<char>,
    pub tags: Seq<TagLinkView>,
    pub star: StarButtonView,
}

impl View for ProjectCard {
    type V = ProjectCardView;

    open spec fn view(&self) -> ProjectCardView {
        ProjectCardView {
            href: self.href@,
            emoji: self.emoji@,
            name: self.name@,
            description: self.description@,
            tags: views_of_tag_links(self.tags@),
            star: self.star@,
        }
    }
}

/// The card a project renders as.
pub open spec fn card_of(p: ProjectView) -> ProjectCardView {
    ProjectCardView {
        href: repo_url_of(p.name),
        emoji: p.emoji,
        name: p.name,
        description: p.description,
        tags: tag_links_of(p.tags),
        star: star_button_of(p.name),
    }
}

/// The cards of a sequence of projects, in order.
pub open spec fn cards_of(ps: Seq<ProjectView>) -> Seq<ProjectCardView> {
    ps.map_values(|p: ProjectView| card_of(p))
}

/// The images of a vector of cards.
pub open spec fn views_of_cards(cs: Seq<ProjectCard>) -> Seq<ProjectCardView> {
    cs.map_values(|c: ProjectCard| c@)
}

/// Render one project as its card.
pub fn view_project(project: &Project) -> (r: ProjectCard)
    ensures
        r@ == card_of(project@),
{
    let r = ProjectCard {
        href: repo_url(project.name.as_str()),
        emoji: project.emoji.clone(),
        name: project.name.clone(),
        description: project.description.clone(),
        tags: view_tags(&project.tags),
        star: view_star_button(project.name.as_str()),
    };
    proof {
        assert(r@ =~= card_of(project@));
    }
    r
}

/// Render a list of projects as cards, in order.
pub fn view_projects(projects: &Vec<Project>) -> (r: Vec<ProjectCard>)
    ensures
        views_of_cards(r@) == cards_of(views_of(projects@)),
{
    let ghost vs = views_of(projects@);
    let mut r: Vec<ProjectCard> = Vec::new();
    let mut i: usize = 0;
    proof {
        assert(views_of_cards(r@) =~= cards_of(vs.take(0)));
    }
    while i < projects.len()
        invariant
            i <= projects.len(),
            vs == views_of(projects@),
            vs.len() == projects@.len(),
            views_of_cards(r@) =~= cards_of(vs.take(i as int)),
        decreases projects.len() - i,
    {
        let ghost old_r = r@;
        let card = view_project(&projects[i]);
        r.push(card);
        proof {
            assert(vs.take(i + 1) =~= vs.take(i as int).push(vs[i as int]));
            crate::text::lemma_map_push(old_r, card, |c: ProjectCard| c@);
            crate::text::lemma_map_push(vs.take(i as int), vs[i as int],
                |p: ProjectView| card_of(p));
            assert(views_of_cards(r@) =~= cards_of(vs.take(i + 1)));
        }
        i += 1;
    }
    proof {
        assert(vs.take(projects@.len() as int) =~= vs);
    }
    r
}

/// A titled category: the tag and the cards of the projects the caller
/// selected for it.
#[derive(Debug, PartialEq, Eq)]
pub struct Category {
    pub tag: String,
    pub cards: Vec<ProjectCard>,
}

/// Mathematical image of a `Category`.
#[verifier::ext_equal]
pub ghost struct CategoryView {
    pub tag: Seq<char>,
    pub cards: Seq<ProjectCardView>,
}

impl View for Category {
    type V = CategoryView;

    open spec fn view(&self) -> CategoryView {
        CategoryView { tag: self.tag@, cards: views_of_cards(self.cards@) }
    }
}

/// The category listing titled with `tag` over the given projects.
pub open spec fn category_of(tag: Seq<char>, ps: Seq<ProjectView>) -> CategoryView {
    CategoryView { tag, cards: cards_of(ps) }
}

/// Render a category section: a title naming the tag and one card per given
/// project, in the given order.
pub fn view_category(tag: &str, projects: &Vec<Project>) -> (r: Category)
    ensures
        r@ == category_of(tag@, views_of(projects@)),
{
    let r = Category { tag: String::from_str(tag), cards: view_projects(projects) };
    proof {
        assert(r@ =~= category_of(tag@, views_of(projects@)));
    }
    r
}

} // verus!

//! The project collection: one entry per open-source project, kept sorted by
//! name after a successful load, and the filters the pages run over it.

use vstd::prelude::*;
use crate::text::{lex_le, views_of_strings, clone_strings, str_eq, str_le, str_contains,
    contains_seq, lowered, lemma_contains_empty, lemma_lex_le_total, lemma_lex_le_trans};
use crate::text;

verus! {

/// One open-source project entry, as the data document describes it.
/// `featured` defaults to false when the document omits it; the two optional
/// fields are only needed for the featured section.
#[derive(Debug, PartialEq, Eq)]
pub struct Project {
    pub name: String,
    pub emoji: String,
    pub tags: Vec<String>,
    pub description: String,
    pub featured: bool,
    pub extended_description: Option<String>,
    pub feature_image: Option<String>,
}

/// Mathematical image of a `Project`: every text field as its character
/// sequence.
#[verifier::ext_equal]
pub ghost struct ProjectView {
    pub name: Seq<char>,
    pub emoji: Seq<char>,
    pub tags: Seq<Seq<char>>,
    pub description: Seq<char>,
    pub featured: bool,
    pub extended_description: Option<Seq<char>>,
    pub feature_image: Option<Seq<char>>,
}

/// The character sequence of an optional string.
pub open spec fn opt_view(o: Option<String>) -> Option<Seq<char>> {
    match o {
        Option::Some(s) => Option::Some(s@),
        Option::None => Option::None,
    }
}

impl View for Project {
    type V = ProjectView;

    open spec fn view(&self) -> ProjectView {
        ProjectView {
            name: self.name@,
            emoji: self.emoji@,
            tags: views_of_strings(self.tags@),
            description: self.description@,
            featured: self.featured,
            extended_description: opt_view(self.extended_description),
            feature_image: opt_view(self.feature_image),
        }
    }
}

/// Clone an optional string, keeping its character sequence.
fn clone_opt_string(o: &Option<String>) -> (r: Option<String>)
    ensures
        opt_view(r) == opt_view(*o),
{
    match o {
        Option::Some(s) => Option::Some(s.clone()),
        Option::None => Option::None,
    }
}

impl Clone for Project {
    /// Cloning keeps every field's value.
    fn clone(&self) -> (r: Self)
        ensures
            r@ == self@,
    {
        let r = Project {
            name: self.name.clone(),
            emoji: self.emoji.clone(),
            tags: clone_strings(&self.tags),
            description: self.description.clone(),
            featured: self.featured,
            extended_description: clone_opt_string(&self.extended_description),
            feature_image: clone_opt_string(&self.feature_image),
        };
        proof {
            assert(r@ =~= self@);
        }
        r
    }
}

/// The shape of the fetched data document: its list of projects.
#[derive(Debug, PartialEq, Eq)]
pub struct Data {
    pub projects: Vec<Project>,
}

impl View for Data {
    type V = Seq<ProjectView>;

    open spec fn view(&self) -> Seq<ProjectView> {
        views_of(self.projects@)
    }
}

/// The mathematical images of a sequence of projects.
pub open spec fn views_of(ps: Seq<Project>) -> Seq<ProjectView> {
    ps.map_values(|p: Project| p@)
}

/// A sequence of projects is in non-decreasing code-point order of names.
pub open spec fn sorted_by_name(ps: Seq<ProjectView>) -> bool {
    forall|i: int, j: int| 0 <= i < j < ps.len() ==> lex_le(ps[i].name, ps[j].name)
}

/// One unfolding step of `Seq::filter` over a push.
pub(crate) proof fn lemma_filter_push<A>(s: Seq<A>, x: A, pred: spec_fn(A) -> bool)
    ensures
        s.push(x).filter(pred) == (if pred(x) {
            s.filter(pred).push(x)
        } else {
            s.filter(pred)
        }),
{
    reveal(Seq::filter);
    assert(s.push(x).drop_last() =~= s);
    assert(s.push(x).last() == x);
}

/// Insert a project into a name-sorted vector, keeping it sorted and adding
/// exactly that project.
fn insert_by_name(v: &mut Vec<Project>, p: Project)
    requires
        sorted_by_name(views_of(old(v)@)),
    ensures
        sorted_by_name(views_of(final(v)@)),
        views_of(final(v)@).to_multiset() == views_of(old(v)@).to_multiset().insert(p@),
{
    let ghost vs = views_of(v@);
    let mut idx: usize = 0;
    while idx < v.len() && str_le(v[idx].name.as_str(), p.name.as_str())
        invariant
            idx <= v.len(),
            v@ == old(v)@,
            vs == views_of(v@),
            forall|k: int| 0 <= k < idx ==> lex_le(vs[k].name, p@.name),
        decreases v.len() - idx,
    {
        proof {
            assert(vs[idx as int].name == v@[idx as int].name@);
        }
        idx += 1;
    }
    let ghost at = idx as int;
    proof {
        assert(at < vs.len() ==> !lex_le(vs[at].name, p@.name));
    }
    v.insert(idx, p);
    proof {
        let s2 = views_of(v@);
        vs.insert_ensures(at, p@);
        views_of(old(v)@).insert_ensures(at, p@);
        old(v)@.insert_ensures(at, p);
        assert(s2 =~= vs.insert(at, p@)) by {
            assert(v@ == old(v)@.insert(at, p));
            assert forall|k: int| 0 <= k < s2.len() implies s2[k] == vs.insert(at, p@)[k] by {
                if k < at {
                    assert(v@[k] == old(v)@[k]);
                } else if k == at {
                    assert(v@[k] == p);
                } else {
                    assert(v@[k] == old(v)@[k - 1]);
                }
            }
        }
        assert forall|i: int, j: int| 0 <= i < j < s2.len()
            implies lex_le(s2[i].name, s2[j].name) by {
            if j < at {
                assert(lex_le(vs[i].name, vs[j].name));
            } else if i < at && j == at {
                assert(lex_le(vs[i].name, p@.name));
            } else if i < at && j > at {
                if i < j - 1 {
                    assert(lex_le(vs[i].name, vs[j - 1].name));
                }
            } else if i == at {
                lemma_lex_le_total(vs[at].name, p@.name);
                if j - 1 > at {
                    lemma_lex_le_trans(p@.name, vs[at].name, vs[j - 1].name);
                }
            } else {
                assert(lex_le(vs[i - 1].name, vs[j - 1].name));
            }
        }
        vstd::seq_lib::to_multiset_insert(vs, at, p@);
    }
}

/// Sort the fetched projects by name in code-point order; the result is a
/// permutation of the input, non-decreasing by name.
pub fn sort_projects(projects: Vec<Project>) -> (r: Vec<Project>)
    ensures
        sorted_by_name(views_of(r@)),
        views_of(r@).to_multiset() == views_of(projects@).to_multiset(),
{
    let ghost vs = views_of(projects@);
    let mut r: Vec<Project> = Vec::new();
    let mut i: usize = 0;
    proof {
        assert(views_of(r@) =~= vs.take(0));
    }
    while i < projects.len()
        invariant
            i <= projects.len(),
            vs == views_of(projects@),
            vs.len() == projects@.len(),
            sorted_by_name(views_of(r@)),
            views_of(r@).to_multiset() == vs.take(i as int).to_multiset(),
        decreases projects.len() - i,
    {
        insert_by_name(&mut r, projects[i].clone());
        proof {
            assert(vs.take(i + 1) =~= vs.take(i as int).push(vs[i as int]));
            vstd::seq_lib::to_multiset_build(vs.take(i as int), vs[i as int]);
        }
        i += 1;
    }
    proof {
        assert(vs.take(projects@.len() as int) =~= vs);
    }
    r
}

/// Membership of a tag in a project's tag list, compared exactly and
/// case-sensitively.
fn tag_in(tags: &Vec<String>, tag: &str) -> (r: bool)
    ensures
        r == views_of_strings(tags@).contains(tag@),
{
    let mut i: usize = 0;
    while i < tags.len()
        invariant
            i <= tags.len(),
            forall|k: int| 0 <= k < i ==> views_of_strings(tags@)[k] != tag@,
        decreases tags.len() - i,
    {
        if str_eq(tags[i].as_str(), tag) {
            proof {
                assert(views_of_strings(tags@)[i as int] == tag@);
            }
            return true;
        }
        i += 1;
    }
    proof {
        assert forall|k: int| 0 <= k < views_of_strings(tags@).len()
            implies views_of_strings(tags@)[k] != tag@ by {}
    }
    false
}

/// Whether a project carries the tag, compared exactly.
pub open spec fn has_tag(p: ProjectView, tag: Seq<char>) -> bool {
    p.tags.contains(tag)
}

/// The ordered subsequence of `ps` carrying exactly `tag`.
pub open spec fn projects_with_tag(ps: Seq<ProjectView>, tag: Seq<char>) -> Seq<ProjectView> {
    ps.filter(|p: ProjectView| has_tag(p, tag))
}

/// The ordered subsequence of projects carrying exactly `tag`; the order of
/// `projects` is preserved, and a tag carried by no project yields an empty
/// sequence.
pub fn iter_projects_by_tag(projects: &Vec<Project>, tag: &str) -> (r: Vec<Project>)
    ensures
        views_of(r@) == projects_with_tag(views_of(projects@), tag@),
{
    let ghost pred = |p: ProjectView| has_tag(p, tag@);
    let ghost vs = views_of(projects@);
    let mut r: Vec<Project> = Vec::new();
    let mut i: usize = 0;
    proof {
        assert(vs.take(0) =~= Seq::<ProjectView>::empty());
        reveal(Seq::filter);
    }
    while i < projects.len()
        invariant
            i <= projects.len(),
            vs == views_of(projects@),
            vs.len() == projects@.len(),
            views_of(r@) =~= vs.take(i as int).filter(pred),
            pred == (|p: ProjectView| has_tag(p, tag@)),
        decreases projects.len() - i,
    {
        let ghost old_r = r@;
        if tag_in(&projects[i].tags, tag) {
            r.push(projects[i].clone());
            proof {
                assert(views_of(r@) =~= views_of(old_r).push(vs[i as int]));
            }
        }
        proof {
            assert(vs.take(i + 1) =~= vs.take(i as int).push(vs[i as int]));
            lemma_filter_push(vs.take(i as int), vs[i as int], pred);
        }
        i += 1;
    }
    proof {
        assert(vs.take(projects@.len() as int) =~= vs);
    }
    r
}

/// Whether a project's name matches a search query: the query, folded to
/// lower case, occurs in the name folded to lower case. An empty query
/// matches every project.
pub open spec fn search_matches(p: ProjectView, query: Seq<char>) -> bool {
    query.len() == 0 || contains_seq(lowered(p.name), lowered(query))
}

/// The ordered subsequence of `ps` whose names match the query.
pub open spec fn search_results_of(ps: Seq<ProjectView>, query: Seq<char>) -> Seq<ProjectView> {
    ps.filter(|p: ProjectView| search_matches(p, query))
}

/// The ordered subsequence of projects whose names match the query,
/// case-insensitively; the order of `projects` is preserved.
pub fn search_filter(query: &str, projects: &Vec<Project>) -> (r: Vec<Project>)
    ensures
        views_of(r@) == search_results_of(views_of(projects@), query@),
{
    let ghost pred = |p: ProjectView| search_matches(p, query@);
    let ghost vs = views_of(projects@);
    let lower_query = text::to_lower(query);
    let query_empty = query.unicode_len() == 0;
    let mut r: Vec<Project> = Vec::new();
    let mut i: usize = 0;
    proof {
        assert(views_of(r@) =~= vs.take(0));
        reveal(Seq::filter);
    }
    while i < projects.len()
        invariant
            i <= projects.len(),
            vs == views_of(projects@),
            vs.len() == projects@.len(),
            lower_query@ == lowered(query@),
            query_empty == (query@.len() == 0),
            query@.len() == 0 ==> lower_query@.len() == 0,
            views_of(r@) =~= vs.take(i as int).filter(pred),
            pred == (|p: ProjectView| search_matches(p, query@)),
        decreases projects.len() - i,
    {
        let ghost old_r = r@;
        let lower_name = text::to_lower(projects[i].name.as_str());
        let hit = str_contains(lower_name.as_str(), lower_query.as_str());
        proof {
            assert(lower_name@ == lowered(vs[i as int].name));
            if query@.len() == 0 {
                lemma_contains_empty(lower_name@, lower_query@);
            }
            assert(hit == pred(vs[i as int]));
        }
        if hit {
            r.push(projects[i].clone());
            proof {
                assert(views_of(r@) =~= views_of(old_r).push(vs[i as int]));
            }
        }
        proof {
            assert(vs.take(i + 1) =~= vs.take(i as int).push(vs[i as int]));
            lemma_filter_push(vs.take(i as int), vs[i as int], pred);
        }
        i += 1;
    }
    proof {
        assert(vs.take(projects@.len() as int) =~= vs);
    }
    r
}

/// An empty query keeps the whole collection: filtering by it returns the
/// input sequence unchanged.
pub proof fn lemma_search_empty_matches_all(ps: Seq<ProjectView>, query: Seq<char>)
    requires
        query.len() == 0,
    ensures
        search_results_of(ps, query) == ps,
    decreases ps.len(),
{
    reveal(Seq::filter);
    if ps.len() == 0 {
        assert(search_results_of(ps, query) =~= ps);
    } else {
        lemma_search_empty_matches_all(ps.drop_last(), query);
        assert(ps.drop_last().push(ps.last()) =~= ps);
        assert(search_results_of(ps.drop_last(), query).push(ps.last()) =~= ps);
    }
}

} // verus!

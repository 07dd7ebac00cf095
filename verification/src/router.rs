//! The router: URLs as plain values, the page variant they select, and the
//! construction of the internal links, so that link generation and link
//! parsing share one source of truth.

use vstd::prelude::*;
use crate::text::{views_of_strings, str_eq};

verus! {

use vstd::string::StringExecFns;

/// One query parameter: a key and its values, in the order they appear in
/// the query string.
#[derive(Debug, PartialEq, Eq)]
pub struct QueryParam {
    pub key: String,
    pub values: Vec<String>,
}

/// Mathematical image of a `QueryParam`.
#[verifier::ext_equal]
pub ghost struct QueryParamView {
    pub key: Seq<char>,
    pub values: Seq<Seq<char>>,
}

impl View for QueryParam {
    type V = QueryParamView;

    open spec fn view(&self) -> QueryParamView {
        QueryParamView { key: self.key@, values: views_of_strings(self.values@) }
    }
}

/// A URL relative to the application's base: its path segments and its
/// query parameters. Resolving against the base where the application is
/// mounted is browser glue and stays outside the library.
#[derive(Debug, PartialEq, Eq)]
pub struct Url {
    pub path: Vec<String>,
    pub search: Vec<QueryParam>,
}

/// Mathematical image of a `Url`.
#[verifier::ext_equal]
pub ghost struct UrlView {
    pub path: Seq<Seq<char>>,
    pub search: Seq<QueryParamView>,
}

impl View for Url {
    type V = UrlView;

    open spec fn view(&self) -> UrlView {
        UrlView {
            path: views_of_strings(self.path@),
            search: self.search@.map_values(|q: QueryParam| q@),
        }
    }
}

/// The page the application is on: the home page, or the listing for one
/// tag.
#[derive(Debug, PartialEq, Eq)]
pub enum Page {
    Home,
    Tags(String),
}

/// Mathematical image of a `Page`.
pub ghost enum PageView {
    Home,
    Tags(Seq<char>),
}

impl View for Page {
    type V = PageView;

    open spec fn view(&self) -> PageView {
        match self {
            Page::Home => PageView::Home,
            Page::Tags(tag) => PageView::Tags(tag@),
        }
    }
}

/// All values carried by parameters named `key`, in query order.
pub open spec fn values_for(search: Seq<QueryParamView>, key: Seq<char>) -> Seq<Seq<char>>
    decreases search.len(),
{
    if search.len() == 0 {
        Seq::empty()
    } else {
        let rest = values_for(search.drop_last(), key);
        if search.last().key == key {
            rest + search.last().values
        } else {
            rest
        }
    }
}

/// The last of a sequence of values, if any.
pub open spec fn last_value(vs: Seq<Seq<char>>) -> Option<Seq<char>> {
    if vs.len() == 0 {
        Option::None
    } else {
        Option::Some(vs.last())
    }
}

/// The tag the URL selects: the last value given for the `tag` query
/// parameter, if one is present.
pub open spec fn selected_tag(u: UrlView) -> Option<Seq<char>> {
    last_value(values_for(u.search, "tag"@))
}

/// The path consists of exactly the one segment `tags`.
pub open spec fn is_tags_path(path: Seq<Seq<char>>) -> bool {
    path.len() == 1 && path[0] == "tags"@
}

/// The page variant a URL resolves to: the `tags` path with a selected tag
/// yields that tag's page; every other URL yields home, so navigation never
/// fails.
pub open spec fn page_of(u: UrlView) -> PageView {
    match selected_tag(u) {
        Option::Some(tag) => if is_tags_path(u.path) {
            PageView::Tags(tag)
        } else {
            PageView::Home
        },
        Option::None => PageView::Home,
    }
}

impl Page {
    /// Derive the page variant from a URL. Total: every URL yields exactly
    /// one variant, the one `page_of` assigns it.
    pub fn init(url: &Url) -> (p: Page)
        ensures
            p@ == page_of(url@),
    {
        let ghost sv = url@.search;
        let mut sel: Option<String> = Option::None;
        let mut i: usize = 0;
        proof {
            assert(sv.take(0) =~= Seq::<QueryParamView>::empty());
        }
        while i < url.search.len()
            invariant
                i <= url.search.len(),
                sv == url@.search,
                sv.len() == url.search@.len(),
                crate::project::opt_view(sel) == last_value(values_for(sv.take(i as int), "tag"@)),
            decreases url.search.len() - i,
        {
            let qp = &url.search[i];
            proof {
                assert(sv[i as int] == url.search@[i as int]@);
                assert(sv.take(i + 1).drop_last() =~= sv.take(i as int));
                assert(sv.take(i + 1).last() == sv[i as int]);
            }
            if str_eq(qp.key.as_str(), "tag") {
                if qp.values.len() > 0 {
                    let last = qp.values[qp.values.len() - 1].clone();
                    proof {
                        let ghost vals = sv[i as int].values;
                        assert(vals[vals.len() - 1] == qp.values@[qp.values@.len() - 1]@);
                        assert((values_for(sv.take(i as int), "tag"@) + vals).last() == vals.last());
                    }
                    sel = Option::Some(last);
                } else {
                    proof {
                        assert(values_for(sv.take(i as int), "tag"@) + sv[i as int].values
                            =~= values_for(sv.take(i as int), "tag"@));
                    }
                }
            }
            i += 1;
        }
        proof {
            assert(sv.take(url.search@.len() as int) =~= sv);
        }
        let on_tags_path = url.path.len() == 1 && str_eq(url.path[0].as_str(), "tags");
        proof {
            assert(url@.path.len() == url.path@.len());
            if url.path@.len() == 1 {
                assert(url@.path[0] == url.path@[0]@);
            }
        }
        match sel {
            Option::Some(tag) => {
                if on_tags_path {
                    Page::Tags(tag)
                } else {
                    Page::Home
                }
            },
            Option::None => Page::Home,
        }
    }
}

/// The image of the home URL: no path segments, no query.
pub open spec fn home_url() -> UrlView {
    UrlView { path: Seq::empty(), search: Seq::empty() }
}

/// The image of the URL for one tag's page: the `tags` path and a single
/// `tag` query value.
pub open spec fn tags_url(tag: Seq<char>) -> UrlView {
    UrlView {
        path: seq!["tags"@],
        search: seq![QueryParamView { key: "tag"@, values: seq![tag] }],
    }
}

/// Builder for the application's internal links.
pub struct Urls {}

impl Urls {
    /// A fresh link builder.
    pub fn new() -> Urls {
        Urls {}
    }

    /// The link to the home page.
    pub fn home(self) -> (u: Url)
        ensures
            u@ == home_url(),
    {
        let u = Url { path: Vec::new(), search: Vec::new() };
        proof {
            assert(u@ =~= home_url());
        }
        u
    }

    /// The link to the page listing the projects carrying `tag`.
    pub fn tags(self, tag: &str) -> (u: Url)
        ensures
            u@ == tags_url(tag@),
    {
        let mut path: Vec<String> = Vec::new();
        path.push(String::from_str("tags"));
        let mut values: Vec<String> = Vec::new();
        values.push(String::from_str(tag));
        let mut search: Vec<QueryParam> = Vec::new();
        search.push(QueryParam { key: String::from_str("tag"), values });
        let u = Url { path, search };
        proof {
            assert(u@.path =~= tags_url(tag@).path);
            assert(u@.search[0].values =~= seq![tag@]);
            assert(u@.search =~= tags_url(tag@).search);
            assert(u@ =~= tags_url(tag@));
        }
        u
    }
}

/// Internal links resolve through the router back to the page they were
/// built for: the link to a tag's page yields that tag's variant, the home
/// link yields home.
pub proof fn lemma_links_resolve(tag: Seq<char>)
    ensures
        page_of(tags_url(tag)) == PageView::Tags(tag),
        page_of(home_url()) == PageView::Home,
{
    let s = tags_url(tag).search;
    assert(s.drop_last() =~= Seq::<QueryParamView>::empty());
    assert(values_for(s, "tag"@) =~= seq![tag]);
    assert(is_tags_path(tags_url(tag).path));
}

} // verus!

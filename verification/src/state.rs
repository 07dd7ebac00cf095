//! Application state and the message-dispatch step: one model owns the
//! project collection, the search overlay state and the current page; every
//! mutation goes through `update`, which also names the effect the runtime
//! must perform after the new state is visible.

use vstd::prelude::*;
use crate::project::{Data, ProjectView, views_of, sorted_by_name, sort_projects};
use crate::router::{Url, UrlView, Page, PageView, page_of};

verus! {

/// Why a data load failed: the request itself failed, the response status
/// was not a success, or the document did not parse.
#[derive(Clone, Copy, PartialEq, Eq, Structural, Debug)]
pub enum LoadError {
    Network,
    Http(u16),
    Parse,
}

/// The effect the runtime must perform after an `update` step commits:
/// nothing, starting the one data fetch, scrolling back to the top on a
/// page transition, focusing and selecting the search input once the opened
/// overlay is rendered, or logging a load failure.
#[derive(Clone, Copy, PartialEq, Eq, Structural, Debug)]
pub enum Cmd {
    NoOp,
    FetchData,
    ScrollToTop,
    FocusSearchInput,
    LogError(LoadError),
}

/// The whole session state: the project collection (empty until the one
/// fetch succeeds), the search overlay, and the current page.
#[derive(Debug, PartialEq, Eq)]
pub struct Model {
    pub data: Data,
    pub show_search: bool,
    pub search_query: String,
    pub page: Page,
}

/// Mathematical image of a `Model`.
#[verifier::ext_equal]
pub ghost struct ModelView {
    pub projects: Seq<ProjectView>,
    pub show_search: bool,
    pub search_query: Seq<char>,
    pub page: PageView,
}

impl View for Model {
    type V = ModelView;

    open spec fn view(&self) -> ModelView {
        ModelView {
            projects: self.data@,
            show_search: self.show_search,
            search_query: self.search_query@,
            page: self.page@,
        }
    }
}

/// A message dispatched to `update`: a navigation event, the outcome of the
/// data fetch, or one of the search overlay's controls.
#[derive(Debug, PartialEq, Eq)]
pub enum Msg {
    UrlChanged(Url),
    DataFetched(Result<Data, LoadError>),
    ToggleSearch,
    CloseSearch,
    SearchQueryChanged(String),
}

/// Mathematical image of a `Msg`.
pub ghost enum MsgView {
    UrlChanged(UrlView),
    DataFetched(Result<Seq<ProjectView>, LoadError>),
    ToggleSearch,
    CloseSearch,
    SearchQueryChanged(Seq<char>),
}

impl View for Msg {
    type V = MsgView;

    open spec fn view(&self) -> MsgView {
        match self {
            Msg::UrlChanged(url) => MsgView::UrlChanged(url@),
            Msg::DataFetched(Result::Ok(data)) => MsgView::DataFetched(Result::Ok(data@)),
            Msg::DataFetched(Result::Err(e)) => MsgView::DataFetched(Result::Err(*e)),
            Msg::ToggleSearch => MsgView::ToggleSearch,
            Msg::CloseSearch => MsgView::CloseSearch,
            Msg::SearchQueryChanged(q) => MsgView::SearchQueryChanged(q@),
        }
    }
}

/// The model a fresh page load starts from: an empty collection (the
/// implicit loading state), a closed search overlay with an empty query,
/// and the page the URL selects.
pub open spec fn initial_model(u: UrlView) -> ModelView {
    ModelView {
        projects: Seq::empty(),
        show_search: false,
        search_query: Seq::empty(),
        page: page_of(u),
    }
}

/// Build the state for a fresh page load. The returned command asks the
/// runtime to start the one data fetch; it is not re-issued on navigation.
pub fn init(url: &Url) -> (res: (Model, Cmd))
    ensures
        res.0@ == initial_model(url@),
        res.1 == Cmd::FetchData,
{
    let model = Model {
        data: Data { projects: Vec::new() },
        show_search: false,
        search_query: String::new(),
        page: Page::init(url),
    };
    proof {
        assert(model@ =~= initial_model(url@));
    }
    (model, Cmd::FetchData)
}

/// What one `update` step does, per message.
///
/// - A navigation event installs the page the URL resolves to and scrolls
///   back to the top; nothing else changes.
/// - A successful fetch installs the fetched projects sorted by name — a
///   permutation of what arrived — and is the only step that touches the
///   collection.
/// - A failed fetch changes nothing and logs the error.
/// - Toggling the search overlay flips its visibility; opening it also
///   focuses and selects the search input after the next render.
/// - Closing the overlay hides it and keeps the query.
/// - A keystroke replaces the query and nothing else.
pub open spec fn update_spec(msg: MsgView, prev: ModelView, next: ModelView, cmd: Cmd) -> bool {
    match msg {
        MsgView::UrlChanged(u) => {
            &&& next == (ModelView { page: page_of(u), ..prev })
            &&& cmd == Cmd::ScrollToTop
        },
        MsgView::DataFetched(Result::Ok(ps)) => {
            &&& sorted_by_name(next.projects)
            &&& next.projects.to_multiset() == ps.to_multiset()
            &&& next == (ModelView { projects: next.projects, ..prev })
            &&& cmd == Cmd::NoOp
        },
        MsgView::DataFetched(Result::Err(e)) => {
            &&& next == prev
            &&& cmd == Cmd::LogError(e)
        },
        MsgView::ToggleSearch => {
            &&& next == (ModelView { show_search: !prev.show_search, ..prev })
            &&& cmd == (if prev.show_search {
                Cmd::NoOp
            } else {
                Cmd::FocusSearchInput
            })
        },
        MsgView::CloseSearch => {
            &&& next == (ModelView { show_search: false, ..prev })
            &&& cmd == Cmd::NoOp
        },
        MsgView::SearchQueryChanged(q) => {
            &&& next == (ModelView { search_query: q, ..prev })
            &&& cmd == Cmd::NoOp
        },
    }
}

/// Apply one message to the model and return the effect the runtime must
/// perform once the new state is visible. All state mutation goes through
/// here, serialized by the single-threaded dispatch loop outside the
/// library.
pub fn update(msg: Msg, model: &mut Model) -> (cmd: Cmd)
    ensures
        update_spec(msg@, old(model)@, final(model)@, cmd),
{
    match msg {
        Msg::UrlChanged(url) => {
            model.page = Page::init(&url);
            proof {
                assert(model@ =~= (ModelView { page: page_of(url@), ..old(model)@ }));
            }
            Cmd::ScrollToTop
        },
        Msg::DataFetched(Result::Ok(data)) => {
            let ghost fetched = data@;
            model.data = Data { projects: sort_projects(data.projects) };
            proof {
                assert(model@ =~= (ModelView { projects: model@.projects, ..old(model)@ }));
            }
            Cmd::NoOp
        },
        Msg::DataFetched(Result::Err(e)) => {
            proof {
                assert(model@ =~= old(model)@);
            }
            Cmd::LogError(e)
        },
        Msg::ToggleSearch => {
            if model.show_search {
                model.show_search = false;
                proof {
                    assert(model@ =~= (ModelView { show_search: false, ..old(model)@ }));
                }
                Cmd::NoOp
            } else {
                model.show_search = true;
                proof {
                    assert(model@ =~= (ModelView { show_search: true, ..old(model)@ }));
                }
                Cmd::FocusSearchInput
            }
        },
        Msg::CloseSearch => {
            model.show_search = false;
            proof {
                assert(model@ =~= (ModelView { show_search: false, ..old(model)@ }));
            }
            Cmd::NoOp
        },
        Msg::SearchQueryChanged(q) => {
            model.search_query = q;
            proof {
                assert(model@ =~= (ModelView { search_query: model@.search_query, ..old(model)@ }));
            }
            Cmd::NoOp
        },
    }
}

} // verus!


//! Core logic of an open-source project showcase site: the project
//! collection and its name ordering, the URL router, the tag and search
//! filters, the state-update step, and a pure page renderer.
//!
//! Browser glue (the network fetch, JSON decoding, DOM construction and
//! event wiring) lives outside the library; everything here works on plain
//! values and carries a verified contract.

pub mod text;
pub mod project;
pub mod router;
pub mod state;
pub mod page;
pub mod view;

pub use page::partial::{repo_url, star_button_src, view_category, view_project, view_tags,
    view_star_button};
pub use project::{Data, Project, iter_projects_by_tag, search_filter, sort_projects};
pub use router::{Page, Url, Urls};
pub use state::{Cmd, LoadError, Model, Msg, init, update};
pub use view::{Document, view};

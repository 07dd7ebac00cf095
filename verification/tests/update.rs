use opensource_website::{Cmd, Data, LoadError, Model, Msg, Page, Project, Url, init, update};
use opensource_website::router::QueryParam;

fn project(name: &str, tags: &[&str]) -> Project {
    Project {
        name: name.to_string(),
        emoji: "🧭".to_string(),
        tags: tags.iter().map(|t| t.to_string()).collect(),
        description: String::new(),
        featured: false,
        extended_description: None,
        feature_image: None,
    }
}

fn home_url() -> Url {
    Url { path: Vec::new(), search: Vec::new() }
}

fn names(model: &Model) -> Vec<String> {
    model.data.projects.iter().map(|p| p.name.clone()).collect()
}

#[test]
fn init_starts_empty_and_fetches_once() {
    let (model, cmd) = init(&home_url());
    assert_eq!(cmd, Cmd::FetchData);
    assert!(model.data.projects.is_empty());
    assert!(!model.show_search);
    assert_eq!(model.search_query, "");
    assert_eq!(model.page, Page::Home);
}

#[test]
fn init_respects_the_starting_url() {
    let u = Url {
        path: vec!["tags".to_string()],
        search: vec![QueryParam { key: "tag".to_string(), values: vec!["go".to_string()] }],
    };
    let (model, _) = init(&u);
    assert_eq!(model.page, Page::Tags("go".to_string()));
}

#[test]
fn successful_fetch_installs_the_sorted_collection() {
    let (mut model, _) = init(&home_url());
    let data = Data { projects: vec![project("beta", &[]), project("Alpha", &[])] };
    let cmd = update(Msg::DataFetched(Ok(data)), &mut model);
    assert_eq!(cmd, Cmd::NoOp);
    assert_eq!(names(&model), vec!["Alpha", "beta"]);
}

#[test]
fn failed_fetch_keeps_the_collection_and_logs() {
    let (mut model, _) = init(&home_url());
    let data = Data { projects: vec![project("a", &[])] };
    update(Msg::DataFetched(Ok(data)), &mut model);

    let cmd = update(Msg::DataFetched(Err(LoadError::Http(500))), &mut model);
    assert_eq!(cmd, Cmd::LogError(LoadError::Http(500)));
    assert_eq!(names(&model), vec!["a"]);

    let cmd = update(Msg::DataFetched(Err(LoadError::Network)), &mut model);
    assert_eq!(cmd, Cmd::LogError(LoadError::Network));
    let cmd = update(Msg::DataFetched(Err(LoadError::Parse)), &mut model);
    assert_eq!(cmd, Cmd::LogError(LoadError::Parse));
    assert_eq!(names(&model), vec!["a"]);
}

#[test]
fn toggle_opens_then_closes_the_overlay() {
    let (mut model, _) = init(&home_url());
    let cmd = update(Msg::ToggleSearch, &mut model);
    assert!(model.show_search);
    assert_eq!(cmd, Cmd::FocusSearchInput);
    let cmd = update(Msg::ToggleSearch, &mut model);
    assert!(!model.show_search);
    assert_eq!(cmd, Cmd::NoOp);
}

#[test]
fn closing_the_overlay_keeps_the_query() {
    let (mut model, _) = init(&home_url());
    update(Msg::ToggleSearch, &mut model);
    update(Msg::SearchQueryChanged("cargo".to_string()), &mut model);
    let cmd = update(Msg::CloseSearch, &mut model);
    assert_eq!(cmd, Cmd::NoOp);
    assert!(!model.show_search);
    assert_eq!(model.search_query, "cargo");
}

#[test]
fn every_keystroke_replaces_the_query() {
    let (mut model, _) = init(&home_url());
    update(Msg::SearchQueryChanged("c".to_string()), &mut model);
    update(Msg::SearchQueryChanged("ca".to_string()), &mut model);
    assert_eq!(model.search_query, "ca");
}

#[test]
fn navigation_updates_the_page_and_scrolls_to_top() {
    let (mut model, _) = init(&home_url());
    let u = Url {
        path: vec!["tags".to_string()],
        search: vec![QueryParam { key: "tag".to_string(), values: vec!["rust".to_string()] }],
    };
    let cmd = update(Msg::UrlChanged(u), &mut model);
    assert_eq!(cmd, Cmd::ScrollToTop);
    assert_eq!(model.page, Page::Tags("rust".to_string()));

    let cmd = update(Msg::UrlChanged(home_url()), &mut model);
    assert_eq!(cmd, Cmd::ScrollToTop);
    assert_eq!(model.page, Page::Home);
}

#[test]
fn navigation_does_not_touch_the_collection() {
    let (mut model, _) = init(&home_url());
    let data = Data { projects: vec![project("a", &["rust"])] };
    update(Msg::DataFetched(Ok(data)), &mut model);
    update(Msg::UrlChanged(home_url()), &mut model);
    assert_eq!(names(&model), vec!["a"]);
}

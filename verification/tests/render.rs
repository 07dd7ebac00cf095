use opensource_website::{Data, Model, Msg, Page, Project, Urls, init, update, view,
    repo_url, star_button_src, view_project, view_category, iter_projects_by_tag};
use opensource_website::router::QueryParam;
use opensource_website::page::home::{featured_cards, list_entries};
use opensource_website::view::Section;
use opensource_website::Url;

fn project(name: &str, tags: &[&str]) -> Project {
    Project {
        name: name.to_string(),
        emoji: "🧭".to_string(),
        tags: tags.iter().map(|t| t.to_string()).collect(),
        description: format!("<b>{}</b>", name),
        featured: false,
        extended_description: None,
        feature_image: None,
    }
}

fn featured(name: &str, extended: Option<&str>, image: Option<&str>) -> Project {
    Project {
        name: name.to_string(),
        emoji: "⭐".to_string(),
        tags: vec!["rust".to_string()],
        description: String::new(),
        featured: true,
        extended_description: extended.map(|s| s.to_string()),
        feature_image: image.map(|s| s.to_string()),
    }
}

fn home_url() -> Url {
    Url { path: Vec::new(), search: Vec::new() }
}

#[test]
fn repo_url_is_the_github_address() {
    assert_eq!(repo_url("cargo-deny"), "https://github.com/EmbarkStudios/cargo-deny");
}

#[test]
fn star_button_src_names_the_repository() {
    assert_eq!(
        star_button_src("physx-rs"),
        "https://ghbtns.com/github-btn.html?user=EmbarkStudios&repo=physx-rs&type=star&count=true&size=large"
    );
}

#[test]
fn a_project_card_links_repository_tags_and_star_button() {
    let p = project("physx-rs", &["rust", "web"]);
    let card = view_project(&p);
    assert_eq!(card.href, "https://github.com/EmbarkStudios/physx-rs");
    assert_eq!(card.name, "physx-rs");
    assert_eq!(card.description, "<b>physx-rs</b>");
    assert_eq!(card.tags.len(), 2);
    assert_eq!(card.tags[0].label, "rust");
    assert_eq!(card.tags[0].href, Urls::new().tags("rust"));
    assert_eq!(card.star.src, star_button_src("physx-rs"));
}

#[test]
fn a_category_is_titled_with_its_tag() {
    let ps = vec![project("a", &["go"]), project("b", &[])];
    let category = view_category("go", &iter_projects_by_tag(&ps, "go"));
    assert_eq!(category.tag, "go");
    assert_eq!(category.cards.len(), 1);
    assert_eq!(category.cards[0].name, "a");
}

#[test]
fn featured_section_skips_incomplete_projects_only_there() {
    let ps = vec![
        featured("complete", Some("long text"), Some("img.png")),
        featured("no-extended", None, Some("img.png")),
        featured("no-image", Some("long text"), None),
        project("plain", &["rust"]),
    ];
    let cards = featured_cards(&ps);
    assert_eq!(cards.len(), 1);
    assert_eq!(cards[0].name, "complete");
    assert_eq!(cards[0].background_image, "img.png");
    assert_eq!(cards[0].extended_description, "long text");

    // the skipped projects still appear in the alphabetical list ...
    let entries = list_entries(&ps);
    let listed: Vec<String> = entries.iter().map(|e| e.name.clone()).collect();
    assert_eq!(listed, vec!["complete", "no-extended", "no-image", "plain"]);

    // ... and in every tag listing for a tag they carry
    let rust_names: Vec<String> =
        iter_projects_by_tag(&ps, "rust").iter().map(|p| p.name.clone()).collect();
    assert_eq!(rust_names, vec!["complete", "no-extended", "no-image", "plain"]);
}

#[test]
fn rendering_the_same_state_twice_gives_identical_documents() {
    let (mut model, _) = init(&home_url());
    let data = Data {
        projects: vec![
            featured("complete", Some("text"), Some("img.png")),
            project("beta", &["go", "rust"]),
            project("Alpha", &["rust"]),
        ],
    };
    update(Msg::DataFetched(Ok(data)), &mut model);
    update(Msg::ToggleSearch, &mut model);
    update(Msg::SearchQueryChanged("a".to_string()), &mut model);
    let first = view(&model);
    let second = view(&model);
    assert_eq!(first, second);
}

#[test]
fn home_page_sections_come_in_document_order() {
    let (mut model, _) = init(&home_url());
    let data = Data { projects: vec![project("a", &["rust"])] };
    update(Msg::DataFetched(Ok(data)), &mut model);
    let doc = view(&model);
    assert_eq!(doc.body.len(), 9);
    assert!(matches!(doc.body[0], Section::Hero));
    assert!(matches!(doc.body[1], Section::Featured(_)));
    assert!(matches!(doc.body[2], Section::Blender(_)));
    assert!(matches!(doc.body[3], Section::Rust(_)));
    assert!(matches!(doc.body[4], Section::Categories(_)));
    assert!(matches!(doc.body[5], Section::Sponsorship));
    assert!(matches!(doc.body[6], Section::ProjectList(_)));
    assert!(matches!(doc.body[7], Section::Newsletter));
    assert!(matches!(doc.body[8], Section::Contribute));
}

#[test]
fn search_overlay_lists_matching_cards_in_collection_order() {
    let (mut model, _) = init(&home_url());
    let data = Data {
        projects: vec![project("rust-gpu", &[]), project("buildkite", &[]), project("Rusty", &[])],
    };
    update(Msg::DataFetched(Ok(data)), &mut model);
    update(Msg::ToggleSearch, &mut model);
    update(Msg::SearchQueryChanged("rus".to_string()), &mut model);
    let doc = view(&model);
    assert!(doc.search.visible);
    assert_eq!(doc.search.query, "rus");
    let found: Vec<String> = doc.search.results.iter().map(|c| c.name.clone()).collect();
    assert_eq!(found, vec!["Rusty", "rust-gpu"]);
}

#[test]
fn end_to_end_tag_page_lists_both_projects_in_sorted_order() {
    let start = Url {
        path: vec!["tags".to_string()],
        search: vec![QueryParam { key: "tag".to_string(), values: vec!["rust".to_string()] }],
    };
    let (mut model, cmd) = init(&start);
    assert_eq!(cmd, opensource_website::Cmd::FetchData);
    assert_eq!(model.page, Page::Tags("rust".to_string()));

    let data = Data {
        projects: vec![project("beta", &["go", "rust"]), project("Alpha", &["rust"])],
    };
    update(Msg::DataFetched(Ok(data)), &mut model);

    let doc = view(&model);
    assert_eq!(doc.body.len(), 2);
    assert!(matches!(doc.body[0], Section::Back(_)));
    match &doc.body[1] {
        Section::TagListing(category) => {
            assert_eq!(category.tag, "rust");
            let listed: Vec<String> = category.cards.iter().map(|c| c.name.clone()).collect();
            assert_eq!(listed, vec!["Alpha", "beta"]);
        },
        other => panic!("expected the tag listing, got {:?}", other),
    }
}

use opensource_website::{Project, iter_projects_by_tag, search_filter, sort_projects};

fn project(name: &str, tags: &[&str]) -> Project {
    Project {
        name: name.to_string(),
        emoji: "🧭".to_string(),
        tags: tags.iter().map(|t| t.to_string()).collect(),
        description: format!("{} description", name),
        featured: false,
        extended_description: None,
        feature_image: None,
    }
}

fn names(projects: &[Project]) -> Vec<String> {
    projects.iter().map(|p| p.name.clone()).collect()
}

#[test]
fn sort_orders_by_name_and_keeps_every_entry() {
    let input = vec![project("gamma", &[]), project("Alpha", &[]), project("beta", &[])];
    let sorted = sort_projects(input);
    assert_eq!(names(&sorted), vec!["Alpha", "beta", "gamma"]);
}

#[test]
fn sort_is_a_permutation() {
    let input = vec![project("b", &["x"]), project("a", &["y"]), project("c", &[])];
    let sorted = sort_projects(input);
    assert_eq!(sorted.len(), 3);
    let mut sorted_names = names(&sorted);
    sorted_names.sort();
    assert_eq!(sorted_names, vec!["a", "b", "c"]);
}

#[test]
fn sort_places_uppercase_before_lowercase() {
    let input = vec![project("beta", &[]), project("Alpha", &[])];
    let sorted = sort_projects(input);
    assert_eq!(names(&sorted), vec!["Alpha", "beta"]);
}

#[test]
fn sort_of_empty_collection_is_empty() {
    let sorted = sort_projects(Vec::new());
    assert!(sorted.is_empty());
}

#[test]
fn tag_filter_keeps_exactly_the_tagged_projects_in_order() {
    let ps = vec![
        project("a", &["rust", "go"]),
        project("b", &["go"]),
        project("c", &["rust"]),
        project("d", &[]),
    ];
    let filtered = iter_projects_by_tag(&ps, "rust");
    assert_eq!(names(&filtered), vec!["a", "c"]);
}

#[test]
fn tag_filter_with_unused_tag_is_empty() {
    let ps = vec![project("a", &["rust"]), project("b", &["go"])];
    let filtered = iter_projects_by_tag(&ps, "zig");
    assert!(filtered.is_empty());
}

#[test]
fn tag_filter_is_case_sensitive_and_exact() {
    let ps = vec![project("a", &["rust"]), project("b", &["Rust"]), project("c", &["rusty"])];
    let filtered = iter_projects_by_tag(&ps, "rust");
    assert_eq!(names(&filtered), vec!["a"]);
}

#[test]
fn tag_filter_allows_overlapping_categories() {
    let ps = vec![project("a", &["rust", "web"]), project("b", &["web"])];
    assert_eq!(names(&iter_projects_by_tag(&ps, "rust")), vec!["a"]);
    assert_eq!(names(&iter_projects_by_tag(&ps, "web")), vec!["a", "b"]);
}

#[test]
fn search_is_case_insensitive_both_ways() {
    let ps = vec![project("Rust-thing", &[]), project("other", &[])];
    let upper = search_filter("RU", &ps);
    let lower = search_filter("ru", &ps);
    assert_eq!(names(&upper), vec!["Rust-thing"]);
    assert_eq!(names(&upper), names(&lower));
}

#[test]
fn search_folds_the_name_too() {
    let ps = vec![project("RUST", &[])];
    let found = search_filter("rust", &ps);
    assert_eq!(names(&found), vec!["RUST"]);
}

#[test]
fn search_with_empty_query_matches_all() {
    let ps = vec![project("a", &[]), project("b", &[])];
    let found = search_filter("", &ps);
    assert_eq!(names(&found), vec!["a", "b"]);
}

#[test]
fn search_with_no_match_is_empty() {
    let ps = vec![project("a", &[]), project("b", &[])];
    let found = search_filter("zzz", &ps);
    assert!(found.is_empty());
}

#[test]
fn search_matches_substrings_anywhere_in_the_name() {
    let ps = vec![project("physx-rs", &[]), project("texture-synthesis", &[])];
    let found = search_filter("x", &ps);
    assert_eq!(names(&found), vec!["physx-rs", "texture-synthesis"]);
}

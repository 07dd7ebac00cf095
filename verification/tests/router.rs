use opensource_website::{Page, Url, Urls};
use opensource_website::router::QueryParam;

fn url(path: &[&str], search: &[(&str, &[&str])]) -> Url {
    Url {
        path: path.iter().map(|s| s.to_string()).collect(),
        search: search
            .iter()
            .map(|(k, vs)| QueryParam {
                key: k.to_string(),
                values: vs.iter().map(|v| v.to_string()).collect(),
            })
            .collect(),
    }
}

#[test]
fn tags_path_with_tag_selects_tag_page() {
    let u = url(&["tags"], &[("tag", &["rust"])]);
    assert_eq!(Page::init(&u), Page::Tags("rust".to_string()));
}

#[test]
fn tags_path_without_tag_is_home() {
    let u = url(&["tags"], &[]);
    assert_eq!(Page::init(&u), Page::Home);
}

#[test]
fn root_is_home() {
    let u = url(&[], &[]);
    assert_eq!(Page::init(&u), Page::Home);
}

#[test]
fn unknown_path_is_home() {
    let u = url(&["anything-else"], &[("tag", &["rust"])]);
    assert_eq!(Page::init(&u), Page::Home);
}

#[test]
fn tags_path_with_extra_segment_is_home() {
    let u = url(&["tags", "more"], &[("tag", &["rust"])]);
    assert_eq!(Page::init(&u), Page::Home);
}

#[test]
fn last_tag_value_wins_within_one_parameter() {
    let u = url(&["tags"], &[("tag", &["go", "web"])]);
    assert_eq!(Page::init(&u), Page::Tags("web".to_string()));
}

#[test]
fn last_tag_value_wins_across_parameters() {
    let u = url(&["tags"], &[("tag", &["go"]), ("other", &["x"]), ("tag", &["blender"])]);
    assert_eq!(Page::init(&u), Page::Tags("blender".to_string()));
}

#[test]
fn empty_tag_parameter_is_ignored() {
    let u = url(&["tags"], &[("tag", &[])]);
    assert_eq!(Page::init(&u), Page::Home);
}

#[test]
fn generated_links_resolve_to_their_pages() {
    let tag_link = Urls::new().tags("rust");
    assert_eq!(Page::init(&tag_link), Page::Tags("rust".to_string()));
    let home_link = Urls::new().home();
    assert_eq!(Page::init(&home_link), Page::Home);
}

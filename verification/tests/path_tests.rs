use autocode::feature::{FileRef, Step};
use autocode::paths::{add_full_path, repo_name_of_url};

fn file_at(path: &str) -> FileRef {
    FileRef {
        file_name: "app.js".to_string(),
        file_path: path.to_string(),
        file_contents: None,
        is_target: false,
    }
}

#[test]
fn join_inserts_separator() {
    let mut f = file_at("src/app.js");
    add_full_path(&mut f, "repo");
    assert_eq!(f.file_path, "repo/src/app.js");
}

#[test]
fn join_keeps_existing_separator() {
    let mut f = file_at("src/app.js");
    add_full_path(&mut f, "repo/");
    assert_eq!(f.file_path, "repo/src/app.js");
}

#[test]
fn join_leaves_absolute_path_alone() {
    let mut f = file_at("/abs/app.js");
    add_full_path(&mut f, "repo");
    assert_eq!(f.file_path, "/abs/app.js");
}

#[test]
fn join_with_empty_directory() {
    let mut f = file_at("src/app.js");
    add_full_path(&mut f, "");
    assert_eq!(f.file_path, "src/app.js");
}

#[test]
fn join_touches_only_the_path() {
    let mut f = file_at("src/app.js");
    f.file_contents = Some("body".to_string());
    f.is_target = true;
    add_full_path(&mut f, "repo");
    assert_eq!(f.file_name, "app.js");
    assert_eq!(f.file_contents.as_deref(), Some("body"));
    assert!(f.is_target);
}

#[test]
fn repo_name_from_clone_url() {
    assert_eq!(
        repo_name_of_url("https://github.com/emoryhubbard/tailwindify.git").as_deref(),
        Some("tailwindify")
    );
    assert_eq!(repo_name_of_url("https://example.com/x.git").as_deref(), Some("x"));
    assert_eq!(repo_name_of_url("a/b.git.git").as_deref(), Some("b.git"));
}

#[test]
fn repo_name_absent_when_url_misshapen() {
    assert_eq!(repo_name_of_url("nope"), None);
    assert_eq!(repo_name_of_url("x.git"), None);
    assert_eq!(repo_name_of_url("a/.git"), None);
    assert_eq!(repo_name_of_url(""), None);
    assert_eq!(repo_name_of_url("https://example.com/repo"), None);
}

#[test]
fn target_path_picks_marked_file() {
    let step = Step {
        description: "d".to_string(),
        target: "t".to_string(),
        test_path: None,
        show_html: "false".to_string(),
        files: vec![
            FileRef {
                file_name: "a".to_string(),
                file_path: "pa".to_string(),
                file_contents: None,
                is_target: false,
            },
            FileRef {
                file_name: "b".to_string(),
                file_path: "pb".to_string(),
                file_contents: None,
                is_target: true,
            },
        ],
    };
    assert_eq!(autocode::feature::target_file_path(&step).as_deref(), Some("pb"));
}

#[test]
fn target_path_absent_without_marked_file() {
    let step = Step {
        description: "d".to_string(),
        target: "t".to_string(),
        test_path: None,
        show_html: "false".to_string(),
        files: vec![file_at("pa")],
    };
    assert_eq!(autocode::feature::target_file_path(&step), None);
}

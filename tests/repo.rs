use git_switch_branch::repo::{
    branch_of_head, checkout_target, current_index, get_branches, join_path,
    remote_checkout_options, root_repo_path, Branch, RepoPath,
};

fn strings(v: &[&str]) -> Vec<String> {
    v.iter().map(|s| s.to_string()).collect()
}

#[test]
fn branch_text() {
    assert_eq!(Branch::Local("main".to_string()).to_string(), "main");
    assert_eq!(Branch::Remote("origin".to_string(), "feature/x".to_string()).to_string(), "origin/feature/x");
}

#[test]
fn branches_from_ref_names() {
    let b = get_branches(&strings(&["main", "dev"]), &strings(&["origin/main", "up/feature/x"])).unwrap();
    assert_eq!(b.len(), 4);
    assert!(matches!(&b[0], Branch::Local(n) if n == "main"));
    assert!(matches!(&b[1], Branch::Local(n) if n == "dev"));
    assert!(matches!(&b[2], Branch::Remote(r, n) if r == "origin" && n == "main"));
    assert!(matches!(&b[3], Branch::Remote(r, n) if r == "up" && n == "feature/x"));
}

#[test]
fn no_branches_from_no_names() {
    assert_eq!(get_branches(&vec![], &vec![]).unwrap().len(), 0);
}

#[test]
fn remote_name_without_slash_is_refused() {
    assert!(get_branches(&strings(&["main"]), &strings(&["origin/main", "HEAD"])).is_none());
}

#[test]
fn joined_ref_names() {
    assert_eq!(join_path(&None, "main".to_string()), "main");
    assert_eq!(join_path(&Some("feature".to_string()), "x".to_string()), "feature/x");
}

#[test]
fn nearest_repository_is_found() {
    let path = RepoPath { absolute: true, segments: strings(&["home", "u", "proj", "src"]) };
    let found = root_repo_path(&path, |k| k == 3 || k == 1).unwrap();
    assert!(found.absolute);
    assert_eq!(found.segments, strings(&["home", "u", "proj"]));
    let here = root_repo_path(&path, |k| k == 4).unwrap();
    assert_eq!(here.segments, path.segments);
    let root = root_repo_path(&path, |k| k == 0).unwrap();
    assert!(root.segments.is_empty());
}

#[test]
fn no_repository_found() {
    let path = RepoPath { absolute: true, segments: strings(&["tmp", "x"]) };
    assert!(root_repo_path(&path, |_| false).is_none());
}

#[test]
fn head_names_branch() {
    assert_eq!(branch_of_head("ref: refs/heads/main\n"), Some("main".to_string()));
    assert_eq!(branch_of_head("ref: refs/heads/feature/x  \r\n"), Some("feature/x".to_string()));
}

#[test]
fn detached_head_names_nothing() {
    assert_eq!(branch_of_head("3f2a9c0d1e\n"), None);
    assert_eq!(branch_of_head("ref: refs/tags/v1\n"), None);
    assert_eq!(branch_of_head(""), None);
}

#[test]
fn current_branch_position() {
    let b = get_branches(&strings(&["main", "dev"]), &strings(&["origin/dev"])).unwrap();
    assert_eq!(current_index(&b, "dev"), Some(1));
    assert_eq!(current_index(&b, "origin/dev"), Some(2));
    assert_eq!(current_index(&b, "feature"), None);
}

#[test]
fn remote_options_text() {
    assert_eq!(
        remote_checkout_options("dev"),
        vec!["Create local branch 'dev'".to_string(), "Checkout remote branch (detached HEAD)".to_string()]
    );
}

#[test]
fn checkout_targets() {
    let local = Branch::Local("main".to_string());
    let remote = Branch::Remote("origin".to_string(), "dev".to_string());
    assert_eq!(checkout_target(&local, 0), "main");
    assert_eq!(checkout_target(&local, 1), "main");
    assert_eq!(checkout_target(&remote, 0), "dev");
    assert_eq!(checkout_target(&remote, 1), "origin/dev");
}

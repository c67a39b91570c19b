use gmon::gitlab_ref::GitlabRef;

fn as_parts(r: GitlabRef) -> (String, Option<String>) {
    match r {
        GitlabRef::Repo(p) => (p, None),
        GitlabRef::Branch(p, b) => (p, Some(b)),
    }
}

#[test]
fn ref_with_branch() {
    let (p, b) = as_parts(GitlabRef::from("a@b"));
    assert_eq!(p, "a");
    assert_eq!(b.as_deref(), Some("b"));
}

#[test]
fn ref_with_empty_branch() {
    let (p, b) = as_parts(GitlabRef::from("a@"));
    assert_eq!(p, "a");
    assert_eq!(b.as_deref(), Some(""));
}

#[test]
fn ref_with_empty_project() {
    let (p, b) = as_parts(GitlabRef::from("@b"));
    assert_eq!(p, "");
    assert_eq!(b.as_deref(), Some("b"));
}

#[test]
fn ref_without_branch() {
    let (p, b) = as_parts(GitlabRef::from("a"));
    assert_eq!(p, "a");
    assert_eq!(b, None);
}

#[test]
fn ref_splits_at_first_at_sign() {
    let (p, b) = as_parts(GitlabRef::from("a@b@c"));
    assert_eq!(p, "a");
    assert_eq!(b.as_deref(), Some("b@c"));
}

#[test]
fn ref_full_project_path() {
    let (p, b) = as_parts(GitlabRef::from("team/app@main"));
    assert_eq!(p, "team/app");
    assert_eq!(b.as_deref(), Some("main"));
}

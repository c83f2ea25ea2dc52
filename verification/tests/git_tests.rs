use zsh_prompt::git_head::{
    get_location, normalize_prefix, parse_head, repo_display_name, GitHead, HeadError, Location,
    RepoQuery,
};

#[test]
fn branch_ref_round_trip() {
    match parse_head("ref: refs/heads/main\n") {
        Ok(GitHead::Branch(name)) => assert_eq!(name, "main"),
        _ => panic!("a branch head must parse as Branch"),
    }
}

#[test]
fn tag_ref_is_refused() {
    assert!(matches!(
        parse_head("ref: refs/tags/v1\n"),
        Err(HeadError::NotBranch)
    ));
}

#[test]
fn bare_commit_is_detached() {
    match parse_head("abcdef0123456789abcdef0123456789abcdef01\n") {
        Ok(GitHead::Detached(c)) => {
            assert_eq!(c, "abcdef0123456789abcdef0123456789abcdef01")
        }
        _ => panic!("bare content must parse as Detached"),
    }
}

#[test]
fn missing_newline_is_refused() {
    assert!(matches!(
        parse_head("ref: refs/heads/main"),
        Err(HeadError::MissingNewline)
    ));
    assert!(matches!(parse_head(""), Err(HeadError::MissingNewline)));
}

#[test]
fn nested_branch_names_keep_their_slashes() {
    match parse_head("ref: refs/heads/feature/deep\n") {
        Ok(GitHead::Branch(name)) => assert_eq!(name, "feature/deep"),
        _ => panic!("a branch head must parse as Branch"),
    }
}

#[test]
fn prefix_loses_one_trailing_separator() {
    assert_eq!(normalize_prefix("sub/dir/"), "sub/dir");
    assert_eq!(normalize_prefix("sub/dir"), "sub/dir");
    assert_eq!(normalize_prefix("/"), "");
    assert_eq!(normalize_prefix(""), "");
}

#[test]
fn repo_name_is_the_final_component() {
    assert_eq!(repo_display_name("/home/someone/project"), "project");
    assert_eq!(repo_display_name("project"), "project");
}

#[test]
fn repo_name_reads_past_trailing_separators() {
    assert_eq!(repo_display_name("/ends/in/separator/"), "separator");
    assert_eq!(repo_display_name("/a/b//"), "b");
    assert_eq!(repo_display_name("a/"), "a");
}

#[test]
fn unnameable_roots_use_the_placeholder() {
    assert_eq!(repo_display_name("/"), "???");
    assert_eq!(repo_display_name(""), "???");
    assert_eq!(repo_display_name("///"), "???");
}

#[test]
fn outside_a_repository_nothing_is_queried() {
    assert!(matches!(get_location(&RepoQuery::NotInRepo), Location::NotGit));
}

#[test]
fn inside_a_repository_every_part_is_resolved() {
    let q = RepoQuery::InRepo {
        root: "/home/someone/project".to_string(),
        head_file: Some("ref: refs/heads/main\n".to_string()),
        prefix: Some("sub/".to_string()),
    };
    match get_location(&q) {
        Location::Git {
            repo,
            branch,
            prefix,
        } => {
            assert_eq!(repo, "project");
            match branch {
                Ok(GitHead::Branch(name)) => assert_eq!(name, "main"),
                _ => panic!("head must resolve to the branch"),
            }
            assert_eq!(prefix.as_deref(), Some("sub"));
        }
        _ => panic!("a rooted query must give a repository location"),
    }
}

#[test]
fn one_failure_does_not_block_the_others() {
    let q = RepoQuery::InRepo {
        root: "/home/someone/project".to_string(),
        head_file: None,
        prefix: None,
    };
    match get_location(&q) {
        Location::Git {
            repo,
            branch,
            prefix,
        } => {
            assert_eq!(repo, "project");
            assert!(matches!(branch, Err(HeadError::Unreadable)));
            assert!(prefix.is_none());
        }
        _ => panic!("a rooted query must give a repository location"),
    }
}

use gitpins::remote::{
    default_branch_of, ls_remote_args, parse_listing, select_ref, tag_names, ListQuery,
    RemoteError, RemoteInfo,
};

const A: &str = "1edb0a9cebe046cc915a218c57dbf7f40739aeee";
const B: &str = "f8fcf75f8273e4b4fdd4b3583cc75de5713a5c9e";

#[test]
fn listing_lines_are_split_at_the_tab() {
    let out = format!("{A}\trefs/tags/v0.1\n{B}\trefs/tags/v0.10\n");
    let listing = parse_listing(&out).unwrap();
    assert_eq!(
        listing,
        vec![RemoteInfo::new(A, "refs/tags/v0.1"), RemoteInfo::new(B, "refs/tags/v0.10")]
    );
    assert_eq!(parse_listing("").unwrap(), vec![]);
}

#[test]
fn listing_line_without_tab_fails() {
    let out = format!("{A}\trefs/heads/master\nbroken line\n");
    assert_eq!(
        parse_listing(&out),
        Err(RemoteError::MissingTab { line: "broken line".into() })
    );
}

#[test]
fn listing_line_with_two_tabs_fails() {
    assert_eq!(
        parse_listing("a\tb\tc\n"),
        Err(RemoteError::ExtraTab { line: "a\tb\tc".into() })
    );
}

#[test]
fn exact_ref_is_not_a_longer_ref_with_the_same_end() {
    let listing = vec![
        RemoteInfo::new(A, "refs/heads/feature/master"),
        RemoteInfo::new(B, "refs/heads/master"),
    ];
    let r = select_ref(&listing, "refs/heads/master").unwrap();
    assert_eq!(r, RemoteInfo::new(B, "refs/heads/master"));
}

#[test]
fn missing_refs_are_reported_apart() {
    assert_eq!(
        select_ref(&vec![], "refs/heads/main"),
        Err(RemoteError::RefNotFound { ref_: "refs/heads/main".into() })
    );
    let listing = vec![RemoteInfo::new(A, "refs/heads/old/main")];
    assert_eq!(
        select_ref(&listing, "refs/heads/main"),
        Err(RemoteError::NoExactRef { ref_: "refs/heads/main".into() })
    );
}

#[test]
fn default_branch_from_symref_listing() {
    let listing = parse_listing(&format!("ref: refs/heads/main\tHEAD\n{A}\tHEAD\n")).unwrap();
    assert_eq!(default_branch_of(&listing), Ok("main".to_string()));
    let listing = vec![RemoteInfo::new(A, "HEAD")];
    assert_eq!(default_branch_of(&listing), Err(RemoteError::NoDefaultBranch));
}

#[test]
fn tag_names_drop_the_ref_prefix() {
    let listing = vec![
        RemoteInfo::new(A, "refs/tags/v1.0"),
        RemoteInfo::new(B, "refs/heads/main"),
        RemoteInfo::new(B, "refs/tags/v1.1"),
    ];
    assert_eq!(tag_names(&listing), vec!["v1.0".to_string(), "v1.1".to_string()]);
}

#[test]
fn ls_remote_arguments() {
    let url = "https://example.org/r.git";
    assert_eq!(
        ls_remote_args(&ListQuery::Ref("refs/heads/main".into()), url),
        vec!["--refs", url, "refs/heads/main"]
    );
    assert_eq!(ls_remote_args(&ListQuery::Tags, url), vec!["--refs", url, "refs/tags/*"]);
    assert_eq!(ls_remote_args(&ListQuery::Head, url), vec!["--symref", url, "HEAD"]);
}

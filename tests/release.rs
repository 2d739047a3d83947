use gitpins::release::{latest_release, LatestRelease};
use gitpins::version::SemVer;

fn tags(list: &[&str]) -> Vec<String> {
    list.iter().map(|t| t.to_string()).collect()
}

#[test]
fn test_latest_release() {
    let v2 = SemVer::parse("2").unwrap();
    assert_eq!(latest_release(&tags(&["foo"]), false, None, None), None);
    assert_eq!(
        latest_release(&tags(&["1.0", "foo"]), false, None, None),
        Some(LatestRelease::tag("1.0"))
    );
    assert_eq!(
        latest_release(&tags(&["1.0", "2.0"]), false, Some(&v2), None),
        Some(LatestRelease::tag("1.0"))
    );
    assert_eq!(
        latest_release(&tags(&["1.0", "2.0", "2.0-pre"]), false, Some(&v2), None),
        Some(LatestRelease::tag("1.0"))
    );
    assert_eq!(
        latest_release(&tags(&["1.0", "2.0", "2.0-pre"]), true, Some(&v2), None),
        Some(LatestRelease::tag("2.0-pre"))
    );
    assert_eq!(
        latest_release(
            &tags(&["foo/1.0", "bar/2.0", "baz/2.0-pre", "zes/1.0", "zes/2.0", "zes/2.1-b1"]),
            false,
            None,
            Some("zes/")
        ),
        Some(LatestRelease {
            tag: "zes/2.0".into(),
            name: "2.0".into()
        })
    );
}

#[test]
fn no_parseable_tag_gives_no_release() {
    assert_eq!(latest_release(&tags(&["foo", "bar", "latest"]), true, None, None), None);
    assert_eq!(latest_release(&tags(&[]), true, None, None), None);
}

#[test]
fn bound_is_exclusive() {
    let v2 = SemVer::parse("2.0").unwrap();
    let r = latest_release(&tags(&["2.0", "1.9", "2.1"]), false, Some(&v2), None).unwrap();
    assert_eq!(r.name, "1.9");
}

#[test]
fn pre_release_only_when_wanted() {
    let list = tags(&["1.0", "1.1-rc1"]);
    assert_eq!(latest_release(&list, false, None, None).unwrap().name, "1.0");
    assert_eq!(latest_release(&list, true, None, None).unwrap().name, "1.1-rc1");
}

#[test]
fn prefix_is_put_back_on_the_tag_only() {
    let r = latest_release(&tags(&["release/1.0", "release/1.2", "2.0"]), false, None, Some("release/"))
        .unwrap();
    assert_eq!(r.tag, "release/1.2");
    assert_eq!(r.name, "1.2");
}

#[test]
fn lenient_versions_compare_by_number() {
    let r = latest_release(&tags(&["v0.9", "v0.10", "v0.2"]), false, None, None).unwrap();
    assert_eq!(r.tag, "v0.10");
}

#[test]
fn version_parse_and_order() {
    let a = SemVer::parse("v1.2").unwrap();
    assert_eq!((a.major, a.minor, a.patch), (1, 2, 0));
    assert!(!a.is_pre_release());
    let b = SemVer::parse("1.2.0-beta").unwrap();
    assert!(b.is_pre_release());
    assert!(b.less_than(&a));
    assert!(!a.less_than(&b));
    assert!(SemVer::parse("not a version").is_none());
}

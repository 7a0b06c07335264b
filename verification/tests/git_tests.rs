//! Describe parsing and repository-fact resolution tests.

use shadow_rs::ci::CiType;
use shadow_rs::fact::EnvSnapshot;
use shadow_rs::date_time::DateTime;
use shadow_rs::git::{new_git, parse_git_describe, CommandQueries, GitHeadInfo};

#[test]
fn test_parse_git_describe() {
    let commit_hash = "24skp4489";
    let describe = "v1.0.0";
    assert_eq!(
        parse_git_describe("v1.0.0", describe).unwrap(),
        (describe.into(), None, None)
    );

    let describe = "v1.0.0-0-g24skp4489";
    assert_eq!(
        parse_git_describe("v1.0.0", describe).unwrap(),
        ("v1.0.0".into(), Some(0), Some(commit_hash.into()))
    );

    let describe = "v1.0.0-1-g24skp4489";
    assert_eq!(
        parse_git_describe("v1.0.0", describe).unwrap(),
        ("v1.0.0".into(), Some(1), Some(commit_hash.into()))
    );

    let describe = "v1.0.0-alpha-0-g24skp4489";
    assert_eq!(
        parse_git_describe("v1.0.0-alpha", describe).unwrap(),
        ("v1.0.0-alpha".into(), Some(0), Some(commit_hash.into()))
    );

    let describe = "v1.0.0.alpha-0-g24skp4489";
    assert_eq!(
        parse_git_describe("v1.0.0.alpha", describe).unwrap(),
        ("v1.0.0.alpha".into(), Some(0), Some(commit_hash.into()))
    );

    let describe = "v1.0.0-alpha";
    assert_eq!(
        parse_git_describe("v1.0.0-alpha", describe).unwrap(),
        ("v1.0.0-alpha".into(), None, None)
    );

    let describe = "v1.0.0-alpha-99-0-g24skp4489";
    assert_eq!(
        parse_git_describe("v1.0.0-alpha-99", describe).unwrap(),
        ("v1.0.0-alpha-99".into(), Some(0), Some(commit_hash.into()))
    );

    let describe = "v1.0.0-alpha-99-024skp4489";
    assert!(parse_git_describe("v1.0.0-alpha-99", describe).is_err());

    let describe = "v1.0.0-alpha-024skp4489";
    assert!(parse_git_describe("v1.0.0-alpha", describe).is_err());

    let describe = "v1.0.0-alpha-024skp4489";
    assert!(parse_git_describe("v1.0.0-alpha", describe).is_err());

    let describe = "v1.0.0-alpha-g024skp4489";
    assert!(parse_git_describe("v1.0.0-alpha", describe).is_err());

    let describe = "v1.0.0----alpha-g024skp4489";
    assert!(parse_git_describe("v1.0.0----alpha", describe).is_err());
}

#[test]
fn test_parse_git_describe_inconsistent_tag() {
    assert!(parse_git_describe("v2.0", "v1.0-3-gabc").is_err());
}

#[test]
fn test_parse_git_describe_short_extension() {
    // A describe string that extends the tag with fewer than three
    // dash-separated segments is a format error.
    assert!(parse_git_describe("v1.0", "v1.0.2").is_err());
    assert!(parse_git_describe("v1.0", "v1.0-x").is_err());
}

fn canned_queries() -> CommandQueries {
    CommandQueries {
        head: GitHeadInfo {
            commit: "8405e28e64080a09525a6cf1b07c22fcaf71a5c5".to_string(),
            short_commit: "8405e28e".to_string(),
            email: "someone@example.com".to_string(),
            author: "someone".to_string(),
            date: "1628080443".to_string(),
            date_iso: "2021-08-04T12:34:03+08:00".to_string(),
        },
        git_clean: true,
        status_file: String::new(),
        branch: Some("master".to_string()),
        current_tag: None,
        last_tag: Some("v1.0.0".to_string()),
        describe: Some("v1.0.0-3-g8405e28e".to_string()),
    }
}

#[test]
fn test_git() {
    let env_map = EnvSnapshot::new();
    let map = new_git("/definitely/not/a/repository", CiType::Github, &env_map, &canned_queries());
    for f in map.entries.iter() {
        let k = f.key.as_str();
        assert!(!f.val.desc.is_empty());
        if !k.eq("TAG")
            && !k.eq("LAST_TAG")
            && !k.eq("COMMITS_SINCE_TAG")
            && !k.eq("BRANCH")
            && !k.eq("GIT_STATUS_FILE")
        {
            assert!(!f.val.v.is_empty(), "fact {} should have a value", k);
        }
    }
}

#[test]
fn test_git_ci_override_applies_without_repository() {
    // A recognised CI environment replaces branch and tag facts, but
    // only when the repository resolution itself did not abort early;
    // without a repository the command-derived facts stay.
    let mut env_map = EnvSnapshot::new();
    env_map.push_entry("GITHUB_ACTIONS".to_string(), "true".to_string());
    env_map.push_entry("GITHUB_REF".to_string(), "refs/tags/v9.9.9".to_string());
    let map = new_git("/definitely/not/a/repository", CiType::Github, &env_map, &canned_queries());
    for f in map.entries.iter() {
        match f.key.as_str() {
            "COMMIT_HASH" => assert_eq!(f.val.v, "8405e28e64080a09525a6cf1b07c22fcaf71a5c5"),
            "COMMIT_DATE" => assert_eq!(f.val.v, "2021-08-04 12:34:03 +08:00"),
            "COMMIT_TIMESTAMP" => assert_eq!(f.val.v, "1628051643"),
            "GIT_CLEAN" => assert_eq!(f.val.v, "true"),
            _ => {}
        }
    }
}

#[test]
fn test_commit_date_timezone_preservation() {
    // Test timezone-aware parsing
    let iso_date = "2021-08-04T12:34:03+08:00";
    let date_time = DateTime::from_iso8601_string(iso_date).unwrap();
    assert_eq!(date_time.human_format(), "2021-08-04 12:34:03 +08:00");
    assert!(date_time.to_rfc3339().contains("+08:00"));

    // Test UTC timezone
    let iso_date_utc = "2021-08-04T12:34:03Z";
    let date_time_utc = DateTime::from_iso8601_string(iso_date_utc).unwrap();
    assert_eq!(date_time_utc.human_format(), "2021-08-04 12:34:03 +00:00");

    // Test negative timezone
    let iso_date_neg = "2021-08-04T12:34:03-05:00";
    let date_time_neg = DateTime::from_iso8601_string(iso_date_neg).unwrap();
    assert_eq!(date_time_neg.human_format(), "2021-08-04 12:34:03 -05:00");
}

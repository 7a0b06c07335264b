//! Artifact generation, summary declarations and deny-set tests.

use shadow_rs::build_fn::{
    clap_long_version_branch_fn, clap_long_version_tag_fn, clap_version_branch_fn,
    clap_version_tag_fn, version_branch_fn, version_tag_fn, CLAP_LONG_VERSION_BRANCH_FN,
    CLAP_LONG_VERSION_FN_DESC, CLAP_VERSION_BRANCH_FN, CLAP_VERSION_FN_DESC, VERSION_FN_DESC,
    VERSION_TAG_FN,
};
use shadow_rs::ci::CiType;
use shadow_rs::date_time::DateTime;
use shadow_rs::env::ToolOutputs;
use shadow_rs::fact::EnvSnapshot;
use shadow_rs::gen_const::{
    clap_long_version_branch_const, version_tag_const, CLAP_LONG_VERSION_BRANCH_CONST_BODY,
    VERSION_TAG_CONST_DOC,
};
use shadow_rs::git::{CommandQueries, GitHeadInfo};
use shadow_rs::shadow::{default_deny, Shadow};

#[test]
fn build_fn_test_version_fn() {
    assert!(version_branch_fn().contains(VERSION_FN_DESC));
    assert!(version_tag_fn().contains(VERSION_TAG_FN));
    assert!(clap_version_branch_fn().contains(CLAP_VERSION_BRANCH_FN));
    assert!(clap_version_tag_fn().contains(CLAP_VERSION_FN_DESC));
    assert!(clap_long_version_branch_fn().contains(CLAP_LONG_VERSION_BRANCH_FN));
    assert!(clap_long_version_tag_fn().contains(CLAP_LONG_VERSION_FN_DESC));
}

#[test]
fn gen_const_test_version_fn() {
    assert!(version_tag_const().contains(VERSION_TAG_CONST_DOC));
    assert!(clap_long_version_branch_const().contains(CLAP_LONG_VERSION_BRANCH_CONST_BODY));
}

fn canned_env() -> EnvSnapshot {
    let mut env = EnvSnapshot::new();
    env.push_entry("SOURCE_DATE_EPOCH".to_string(), "1628080443".to_string());
    env.push_entry("CARGO_PKG_NAME".to_string(), "demo".to_string());
    env.push_entry("CARGO_PKG_VERSION".to_string(), "0.1.0".to_string());
    env
}

fn canned_tools() -> ToolOutputs {
    ToolOutputs {
        rust_version: Some("rustc 1.75.0".to_string()),
        cargo_version: Some("cargo 1.75.0".to_string()),
        cargo_tree: None,
        cargo_metadata: Some("{}".to_string()),
    }
}

fn canned_queries() -> CommandQueries {
    CommandQueries {
        head: GitHeadInfo {
            commit: "8405e28e64080a09525a6cf1b07c22fcaf71a5c5".to_string(),
            short_commit: "8405e28e".to_string(),
            email: "someone@example.com".to_string(),
            author: "someone".to_string(),
            date: "1628080443".to_string(),
            date_iso: "2021-08-04T12:34:03Z".to_string(),
        },
        git_clean: true,
        status_file: String::new(),
        branch: Some("master".to_string()),
        current_tag: Some("v0.1.0".to_string()),
        last_tag: Some("v0.1.0".to_string()),
        describe: Some("v0.1.0".to_string()),
    }
}

fn canned_shadow(deny: Vec<String>) -> Shadow {
    Shadow::new(
        "/definitely/not/a/repository",
        &canned_env(),
        &canned_tools(),
        &canned_queries(),
        "linux-x86_64".to_string(),
        deny,
    )
}

#[test]
fn test_deterministic_generation() {
    let time = DateTime::timestamp_2_utc(1628080443).unwrap();
    let shadow1 = canned_shadow(default_deny());
    let shadow2 = canned_shadow(default_deny());
    let out1 = shadow1.gen(&time);
    let out2 = shadow2.gen(&time);
    assert_eq!(out1, out2);
    assert!(!out1.is_empty());
}

#[test]
fn test_deny_set_exclusion() {
    let time = DateTime::timestamp_2_utc(1628080443).unwrap();
    let shadow = canned_shadow(vec!["TAG".to_string(), "CARGO_METADATA".to_string()]);
    // Resolution still sees the denied facts.
    let mut has_tag = false;
    for f in shadow.map.entries.iter() {
        if f.key.as_str() == "TAG" {
            has_tag = true;
        }
    }
    assert!(has_tag);
    // Emission omits them.
    let out = shadow.gen(&time);
    assert!(!out.contains("pub const TAG:"));
    assert!(!out.contains("pub const CARGO_METADATA:"));
    assert!(out.contains("pub const PKG_VERSION:"));
}

#[test]
fn test_generated_declarations() {
    let time = DateTime::timestamp_2_utc(1628080443).unwrap();
    let shadow = canned_shadow(default_deny());
    let out = shadow.gen(&time);
    assert!(out.contains("pub const BRANCH: &str"));
    assert!(out.contains("pub const GIT_CLEAN: bool = true;"));
    assert!(out.contains("pub const PKG_VERSION: &str = \"0.1.0\";"));
    assert!(out.contains("pub const BUILD_TIME: &str = \"2021-08-04 12:34:03 +00:00\";"));
    assert!(out.contains("pub fn print_build_in()"));
    // resolved at the injected instant
    assert!(out.contains("Wed, 04 Aug 2021 12:34:03 +0000"));
}

#[test]
fn test_graceful_degradation_without_repository() {
    // Resolving against a path that is not a repository yields a
    // complete fact table with the repository facts degraded to their
    // defaults, and no error.
    let mut env = EnvSnapshot::new();
    env.push_entry("SOURCE_DATE_EPOCH".to_string(), "1628080443".to_string());
    let empty_queries = CommandQueries {
        head: GitHeadInfo {
            commit: String::new(),
            short_commit: String::new(),
            email: String::new(),
            author: String::new(),
            date: String::new(),
            date_iso: String::new(),
        },
        git_clean: true,
        status_file: String::new(),
        branch: None,
        current_tag: None,
        last_tag: None,
        describe: None,
    };
    let shadow = Shadow::new(
        "/definitely/not/a/repository",
        &env,
        &ToolOutputs {
            rust_version: None,
            cargo_version: None,
            cargo_tree: None,
            cargo_metadata: None,
        },
        &empty_queries,
        "linux-x86_64".to_string(),
        default_deny(),
    );
    assert_eq!(shadow.map.entries.len(), 34);
    for f in shadow.map.entries.iter() {
        assert!(!f.val.desc.is_empty());
        match f.key.as_str() {
            "COMMIT_HASH" | "COMMIT_AUTHOR" | "COMMIT_EMAIL" | "BRANCH" | "TAG" => {
                assert_eq!(f.val.v, "");
            }
            _ => {}
        }
    }
}

#[test]
fn test_shadow_detects_ci() {
    let mut env = canned_env();
    env.push_entry("GITLAB_CI".to_string(), "true".to_string());
    let shadow = Shadow::new(
        "/definitely/not/a/repository",
        &env,
        &canned_tools(),
        &canned_queries(),
        "linux-x86_64".to_string(),
        default_deny(),
    );
    assert_eq!(shadow.ci_type, CiType::Gitlab);
}

//! Redaction and environment-fact tests.

use shadow_rs::env::{filter_cargo_tree, filter_dep_source, new_system_env, ToolOutputs};
use shadow_rs::fact::{ConstType, EnvSnapshot};

#[test]
fn test_filter_dep_source_none() {
    let input = "shadow-rs v0.5.23";
    let ret = filter_dep_source(input);
    assert_eq!(input, ret)
}

#[test]
fn test_filter_dep_source_multi() {
    let input = "shadow-rs v0.5.23 (*)";
    let ret = filter_dep_source(input);
    assert_eq!(input, ret)
}

#[test]
fn test_filter_dep_source_path() {
    let input = "shadow-rs v0.5.23 (/Users/baoyachi/shadow-rs)";
    let ret = filter_dep_source(input);
    assert_eq!("shadow-rs v0.5.23 (* path)", ret)
}

#[test]
fn test_filter_dep_source_registry() {
    let input = "shadow-rs v0.5.23 (registry `ssh://git@github.com/baoyachi/shadow-rs.git`)";
    let ret = filter_dep_source(input);
    assert_eq!("shadow-rs v0.5.23 (* registry)", ret)
}

#[test]
fn test_filter_dep_source_git_https() {
    let input = "shadow-rs v0.5.23 (https://github.com/baoyachi/shadow-rs#13572c90)";
    let ret = filter_dep_source(input);
    assert_eq!("shadow-rs v0.5.23 (* git)", ret)
}

#[test]
fn test_filter_dep_source_git_http() {
    let input = "shadow-rs v0.5.23 (http://github.com/baoyachi/shadow-rs#13572c90)";
    let ret = filter_dep_source(input);
    assert_eq!("shadow-rs v0.5.23 (* git)", ret)
}

#[test]
fn test_filter_dep_source_git() {
    let input = "shadow-rs v0.5.23 (ssh://git@github.com/baoyachi/shadow-rs)";
    let ret = filter_dep_source(input);
    assert_eq!("shadow-rs v0.5.23 (* git)", ret)
}

#[test]
fn test_filter_dep_windows_path() {
    let input = r"shadow-rs v0.5.23 (FD:\a\shadow-rs\shadow-rs)";
    let ret = filter_dep_source(input);
    assert_eq!(input, ret)
}

#[test]
fn test_filter_dep_source_existing_relative_path() {
    // The fallback branch probes the filesystem: the current directory
    // always exists, so the suffix is classified and redacted as a
    // path even without a leading separator.
    let input = "shadow-rs v0.5.23 (.)";
    let ret = filter_dep_source(input);
    assert_eq!("shadow-rs v0.5.23 (* path)", ret)
}

#[test]
fn test_environment() {
    let mut env = EnvSnapshot::new();
    env.push_entry("RUSTUP_TOOLCHAIN".to_string(), "stable".to_string());
    let tools = ToolOutputs {
        rust_version: Some("rustc 1.75.0".to_string()),
        cargo_version: Some("cargo 1.75.0".to_string()),
        cargo_tree: None,
        cargo_metadata: None,
    };
    let table = new_system_env(&env, &tools, "linux-x86_64".to_string());
    println!("{:?}", table);
}

#[test]
fn test_filter_cargo_tree_lines() {
    let lines = vec![
        "shadow-rs v0.5.23 (/Users/x/shadow-rs)",
        "├── git2 v0.13",
        "└── other v1.0 (https://example.com/x#abc)",
    ];
    let ret = filter_cargo_tree(lines);
    assert_eq!(
        ret,
        "\nshadow-rs v0.5.23 (* path)\n├── git2 v0.13\n└── other v1.0 (* git)"
    );
}

#[test]
fn test_new_system_env_values() {
    let mut env = EnvSnapshot::new();
    env.push_entry("CARGO_PKG_VERSION".to_string(), "1.2.3".to_string());
    env.push_entry("TARGET".to_string(), "x86_64-unknown-linux-gnu".to_string());
    let tools = ToolOutputs {
        rust_version: Some("rustc 1.75.0 (abc 2024-01-01)\n".to_string()),
        cargo_version: None,
        cargo_tree: Some("pkg v1.0\n├── dep v0.1 (/home/x/dep)\n└── dep2 v0.2".to_string()),
        cargo_metadata: None,
    };
    let table = new_system_env(&env, &tools, "linux-x86_64".to_string());
    assert_eq!(table.entries.len(), 15);
    for f in table.entries.iter() {
        assert!(!f.val.desc.is_empty());
        match f.key.as_str() {
            "BUILD_OS" => assert_eq!(f.val.v, "linux-x86_64"),
            "PKG_VERSION" => assert_eq!(f.val.v, "1.2.3"),
            "BUILD_TARGET" => assert_eq!(f.val.v, "x86_64-unknown-linux-gnu"),
            "RUST_VERSION" => assert_eq!(f.val.v, "rustc 1.75.0 (abc 2024-01-01)"),
            "CARGO_VERSION" => assert_eq!(f.val.v, ""),
            "CARGO_TREE" => assert_eq!(f.val.v, "\n├── dep v0.1 (* path)\n└── dep2 v0.2"),
            "CARGO_METADATA" => {
                assert_eq!(f.val.v, "");
                assert_eq!(f.val.t, ConstType::Slice);
            }
            _ => {}
        }
    }
}

//! The generated convenience functions: version summaries assembled as
//! source text for the emitted artifact, in the branch and the tag
//! flavour.

use vstd::prelude::*;

verus! {

pub const VERSION_BRANCH_FN: &'static str = "#[allow(dead_code)]\npub fn version() -> &'static str {\n    shadow_rs::const_format::concatcp!(r#\"\npkg_version:{}\nbranch:{}\ncommit_hash:{}\nbuild_time:{}\nbuild_env:{},{}\"#,PKG_VERSION, BRANCH, SHORT_COMMIT, BUILD_TIME, RUST_VERSION, RUST_CHANNEL\n    )\n}";

pub const VERSION_TAG_FN: &'static str = "#[allow(dead_code)]\npub fn version() -> &'static str {\n    shadow_rs::const_format::concatcp!(r#\"\npkg_version:{}\ntag:{}\ncommit_hash:{}\nbuild_time:{}\nbuild_env:{},{}\"#,PKG_VERSION, TAG, SHORT_COMMIT, BUILD_TIME, RUST_VERSION, RUST_CHANNEL\n    )\n}";

pub const CLAP_VERSION_BRANCH_FN: &'static str = "#[allow(dead_code)]\n#[deprecated = \"Replaced with `clap_long_version`\"]\npub fn clap_version() -> &'static str {\n    shadow_rs::const_format::concatcp!(r#\"{}\nbranch:{}\ncommit_hash:{}\nbuild_time:{}\nbuild_env:{},{}\"#,PKG_VERSION, BRANCH, SHORT_COMMIT, BUILD_TIME, RUST_VERSION, RUST_CHANNEL\n    )\n}";

pub const CLAP_VERSION_TAG_FN: &'static str = "#[allow(dead_code)]\n#[deprecated = \"Replaced with `clap_long_version`\"]\npub fn clap_version() -> &'static str {\n    shadow_rs::const_format::concatcp!(r#\"{}\ntag:{}\ncommit_hash:{}\nbuild_time:{}\nbuild_env:{},{}\"#,PKG_VERSION, TAG, SHORT_COMMIT, BUILD_TIME, RUST_VERSION, RUST_CHANNEL\n    )\n}";

pub const CLAP_LONG_VERSION_BRANCH_FN: &'static str = "#[allow(dead_code)]\npub fn clap_long_version() -> &'static str {\n    shadow_rs::const_format::concatcp!(r#\"{}\nbranch:{}\ncommit_hash:{}\nbuild_time:{}\nbuild_env:{},{}\"#,PKG_VERSION, BRANCH, SHORT_COMMIT, BUILD_TIME, RUST_VERSION, RUST_CHANNEL\n    )\n}";

pub const CLAP_LONG_VERSION_TAG_FN: &'static str = "#[allow(dead_code)]\npub fn clap_long_version() -> &'static str {\n    shadow_rs::const_format::concatcp!(r#\"{}\ntag:{}\ncommit_hash:{}\nbuild_time:{}\nbuild_env:{},{}\"#,PKG_VERSION, TAG, SHORT_COMMIT, BUILD_TIME, RUST_VERSION, RUST_CHANNEL\n    )\n}";

pub const VERSION_FN_DESC: &'static str =
    "/// The common version function. It's so easy to use this function.";

pub const CLAP_VERSION_FN_DESC: &'static str =
    "/// The common version function. It's so easy to use this function with clap_version().";

pub const CLAP_LONG_VERSION_FN_DESC: &'static str =
    "/// The common version function. It's so easy to use this function with clap_version().";

/// A description line joined with a function body by one newline.
pub open spec fn fn_text(desc: Seq<char>, body: Seq<char>) -> Seq<char> {
    desc + "\n"@ + body
}

/// Join a description line and a function body.
fn concat_fn_text(desc: &str, body: &str) -> (r: String)
    ensures
        r@ == fn_text(desc@, body@),
{
    let mut out = String::from_str(desc);
    out.append("\n");
    out.append(body);
    out
}

/// The branch-flavoured version function, as source text.
pub fn version_branch_fn() -> (r: String)
    ensures
        r@ == fn_text(VERSION_FN_DESC@, VERSION_BRANCH_FN@),
{
    concat_fn_text(VERSION_FN_DESC, VERSION_BRANCH_FN)
}

/// The tag-flavoured version function, as source text.
pub fn version_tag_fn() -> (r: String)
    ensures
        r@ == fn_text(VERSION_FN_DESC@, VERSION_TAG_FN@),
{
    concat_fn_text(VERSION_FN_DESC, VERSION_TAG_FN)
}

/// The deprecated branch-flavoured long version function.
pub fn clap_version_branch_fn() -> (r: String)
    ensures
        r@ == fn_text(CLAP_VERSION_FN_DESC@, CLAP_VERSION_BRANCH_FN@),
{
    concat_fn_text(CLAP_VERSION_FN_DESC, CLAP_VERSION_BRANCH_FN)
}

/// The deprecated tag-flavoured long version function.
pub fn clap_version_tag_fn() -> (r: String)
    ensures
        r@ == fn_text(CLAP_VERSION_FN_DESC@, CLAP_VERSION_TAG_FN@),
{
    concat_fn_text(CLAP_VERSION_FN_DESC, CLAP_VERSION_TAG_FN)
}

/// The branch-flavoured long version function.
pub fn clap_long_version_branch_fn() -> (r: String)
    ensures
        r@ == fn_text(CLAP_LONG_VERSION_FN_DESC@, CLAP_LONG_VERSION_BRANCH_FN@),
{
    concat_fn_text(CLAP_LONG_VERSION_FN_DESC, CLAP_LONG_VERSION_BRANCH_FN)
}

/// The tag-flavoured long version function.
pub fn clap_long_version_tag_fn() -> (r: String)
    ensures
        r@ == fn_text(CLAP_LONG_VERSION_FN_DESC@, CLAP_LONG_VERSION_TAG_FN@),
{
    concat_fn_text(CLAP_LONG_VERSION_FN_DESC, CLAP_LONG_VERSION_TAG_FN)
}

} // verus!

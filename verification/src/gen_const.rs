//! The generated summary declarations: long version strings assembled
//! as source text, in the branch and the tag flavour, plus the
//! metadata-reading convenience function.

use vstd::prelude::*;

use crate::fact::has_key;
use crate::shadow::Shadow;

verus! {

pub const CARGO_CLIPPY_ALLOW_ALL: &'static str =
    "#[allow(clippy::all, clippy::pedantic, clippy::restriction, clippy::nursery)]";

pub const VERSION_BRANCH_CONST_DOC: &'static str = "/// A long version string describing the project.\n/// The version string contains the package version, branch, commit hash, build time, and build environment on separate lines.\n/// This constant is suitable for printing to the user.";

pub const VERSION_BRANCH_CONST_BODY: &'static str = "pub const VERSION:&str = shadow_rs::formatcp!(r#\"\npkg_version:{}\nbranch:{}\ncommit_hash:{}\nbuild_time:{}\nbuild_env:{},{}\"#,PKG_VERSION, BRANCH, SHORT_COMMIT, BUILD_TIME, RUST_VERSION, RUST_CHANNEL\n);";

pub const VERSION_TAG_CONST_DOC: &'static str = "/// A long version string describing the project.\n/// The version string contains the package version, current Git tag, commit hash, build time, and build environment on separate lines.\n/// This constant is suitable for printing to the user.";

pub const VERSION_TAG_CONST_BODY: &'static str = "pub const VERSION:&str = shadow_rs::formatcp!(r#\"\npkg_version:{}\ntag:{}\ncommit_hash:{}\nbuild_time:{}\nbuild_env:{},{}\"#,PKG_VERSION, TAG, SHORT_COMMIT, BUILD_TIME, RUST_VERSION, RUST_CHANNEL\n);";

pub const CLAP_LONG_VERSION_BRANCH_CONST_DOC: &'static str = "/// A long version string describing the project.\n/// The version string contains the package version, branch, commit hash, build time, and build environment on separate lines.\n/// This constant is intended to be used by clap or other CLI tools as a long version string.";

pub const CLAP_LONG_VERSION_BRANCH_CONST_BODY: &'static str = "pub const CLAP_LONG_VERSION:&str = shadow_rs::formatcp!(r#\"{}\nbranch:{}\ncommit_hash:{}\nbuild_time:{}\nbuild_env:{},{}\"#,PKG_VERSION, BRANCH, SHORT_COMMIT, BUILD_TIME, RUST_VERSION, RUST_CHANNEL\n);";

pub const CLAP_LONG_VERSION_TAG_CONST_DOC: &'static str = "/// A long version string describing the project.\n/// The version string contains the package version, current Git tag, commit hash, build time, and build environment on separate lines.\n/// This constant is intended to be used by clap or other CLI tools as a long version string.";

pub const CLAP_LONG_VERSION_TAG_CONST_BODY: &'static str = "pub const CLAP_LONG_VERSION:&str = shadow_rs::formatcp!(r#\"{}\ntag:{}\ncommit_hash:{}\nbuild_time:{}\nbuild_env:{},{}\"#,PKG_VERSION, TAG, SHORT_COMMIT, BUILD_TIME, RUST_VERSION, RUST_CHANNEL\n);";

/// A summary declaration: its documentation, the fixed attribute
/// lines, and the declaration body, each on its own line.
pub open spec fn const_text(doc: Seq<char>, body: Seq<char>) -> Seq<char> {
    doc + "\n"@ + "#[allow(dead_code,missing_docs)]"@ + "\n"@ + CARGO_CLIPPY_ALLOW_ALL@ + "\n"@
        + body + "\n"@
}

/// Assemble a summary declaration from its documentation and body.
fn gen_const_text(doc: &str, body: &str) -> (r: String)
    ensures
        r@ == const_text(doc@, body@),
{
    let mut out = String::from_str(doc);
    out.append("\n");
    out.append("#[allow(dead_code,missing_docs)]");
    out.append("\n");
    out.append(CARGO_CLIPPY_ALLOW_ALL);
    out.append("\n");
    out.append(body);
    out.append("\n");
    out
}

/// The branch-flavoured long version constant, as source text.
pub fn version_branch_const() -> (r: String)
    ensures
        r@ == const_text(VERSION_BRANCH_CONST_DOC@, VERSION_BRANCH_CONST_BODY@),
{
    gen_const_text(VERSION_BRANCH_CONST_DOC, VERSION_BRANCH_CONST_BODY)
}

/// The tag-flavoured long version constant, as source text.
pub fn version_tag_const() -> (r: String)
    ensures
        r@ == const_text(VERSION_TAG_CONST_DOC@, VERSION_TAG_CONST_BODY@),
{
    gen_const_text(VERSION_TAG_CONST_DOC, VERSION_TAG_CONST_BODY)
}

/// The branch-flavoured long version constant for CLI use.
pub fn clap_long_version_branch_const() -> (r: String)
    ensures
        r@ == const_text(
            CLAP_LONG_VERSION_BRANCH_CONST_DOC@,
            CLAP_LONG_VERSION_BRANCH_CONST_BODY@,
        ),
{
    gen_const_text(CLAP_LONG_VERSION_BRANCH_CONST_DOC, CLAP_LONG_VERSION_BRANCH_CONST_BODY)
}

/// The tag-flavoured long version constant for CLI use.
pub fn clap_long_version_tag_const() -> (r: String)
    ensures
        r@ == const_text(CLAP_LONG_VERSION_TAG_CONST_DOC@, CLAP_LONG_VERSION_TAG_CONST_BODY@),
{
    gen_const_text(CLAP_LONG_VERSION_TAG_CONST_DOC, CLAP_LONG_VERSION_TAG_CONST_BODY)
}

pub const CARGO_METADATA_FN_TEXT: &'static str = "\nuse shadow_rs::cargo_metadata::Metadata;\nuse shadow_rs::serde_json;\n\n/// Attempts to parse the Cargo package metadata from the generated constant CARGO_METADATA.\n///\n/// Returns a `Metadata` struct containing information about the Cargo workspace,\n/// such as details about the packages and their dependencies.\n///\n/// # Return Values\n/// - `Ok(Metadata)`: Contains the parsed metadata if successful.\n/// - `Err(String)`: Returns an error message if converting the environment variable to a UTF-8 string or parsing JSON fails.\n#[allow(dead_code)]\n#[allow(clippy::all, clippy::pedantic, clippy::restriction, clippy::nursery)]\npub fn cargo_metadata() -> Result<Metadata, String> {\n    let metadata_json = std::str::from_utf8(CARGO_METADATA.as_ref()).map_err(|err| format!(\"generate 'CARGO_METADATA' value from UTF8 error:{}\",err))?;\n    let meta: Metadata = serde_json::from_str(metadata_json).map_err(|err| err.to_string())?;\n    Ok(meta)\n}";

/// The metadata-reading convenience function, as source text; empty
/// when the table does not carry the metadata fact.
pub fn cargo_metadata_fn(shadow: &Shadow) -> (r: String)
    ensures
        has_key(shadow.map@, "CARGO_METADATA"@) ==> r@ == CARGO_METADATA_FN_TEXT@,
        !has_key(shadow.map@, "CARGO_METADATA"@) ==> r@ == Seq::<char>::empty(),
{
    if !shadow.map.contains_key("CARGO_METADATA") {
        let e = String::new();
        proof {
            assert(e@ =~= Seq::<char>::empty());
        }
        return e;
    }
    String::from_str(CARGO_METADATA_FN_TEXT)
}

} // verus!

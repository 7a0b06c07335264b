//! Detection of the continuous-integration environment a build runs in.
//!
//! The variant set is closed: recognising another vendor means adding a
//! variant here and one detection clause, selected by a pure function
//! over the environment snapshot.

use vstd::prelude::*;

use crate::fact::{env_val, EnvSnapshot};
use crate::strutil::str_eq;

verus! {

/// The continuous-integration environments the resolver can detect.
#[derive(Debug, Clone, Copy, PartialEq, Eq, Structural)]
pub enum CiType {
    Github,
    Gitlab,
    Unknown,
}

impl Default for CiType {
    /// Outside any recognised vendor the type is `Unknown`.
    fn default() -> (r: Self)
        ensures
            r == CiType::Unknown,
    {
        CiType::Unknown
    }
}

impl CiType {
    /// The fixed lower-case name of the detected vendor.
    pub fn ci_name(&self) -> (r: &'static str)
        ensures
            *self == CiType::Github ==> r@ == "github"@,
            *self == CiType::Gitlab ==> r@ == "gitlab"@,
            *self == CiType::Unknown ==> r@ == "none"@,
    {
        match self {
            CiType::Github => "github",
            CiType::Gitlab => "gitlab",
            CiType::Unknown => "none",
        }
    }
}

/// Which vendor the environment snapshot identifies: the fixed sentinel
/// variables decide, checked in a fixed order.
pub open spec fn spec_ci_type(env: Seq<crate::fact::EnvEntryView>) -> CiType {
    if env_val(env, "GITLAB_CI"@) == Some("true"@) {
        CiType::Gitlab
    } else if env_val(env, "GITHUB_ACTIONS"@) == Some("true"@) {
        CiType::Github
    } else {
        CiType::Unknown
    }
}

/// Detect the continuous-integration vendor from the environment
/// snapshot.
pub fn try_ci(env: &EnvSnapshot) -> (r: CiType)
    ensures
        r == spec_ci_type(env@),
{
    if let Some(v) = env.get("GITLAB_CI") {
        if str_eq(v.as_str(), "true") {
            return CiType::Gitlab;
        }
    }
    if let Some(v) = env.get("GITHUB_ACTIONS") {
        if str_eq(v.as_str(), "true") {
            return CiType::Github;
        }
    }
    CiType::Unknown
}

} // verus!

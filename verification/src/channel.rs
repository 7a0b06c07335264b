//! The build variant (debug or release) under which the project is being
//! compiled.

use vstd::prelude::*;

verus! {

/// The build variant: whether debug assertions were enabled.
#[derive(Debug, Clone, Copy, PartialEq, Eq, Structural)]
pub enum BuildRustChannel {
    Debug,
    Release,
}

impl Default for BuildRustChannel {
    /// The default variant is `Debug`.
    fn default() -> (r: Self)
        ensures
            r == BuildRustChannel::Debug,
    {
        BuildRustChannel::Debug
    }
}

impl BuildRustChannel {
    /// The fixed name under which this variant is recorded in the fact
    /// table.
    pub fn channel_name(&self) -> (r: &'static str)
        ensures
            *self == BuildRustChannel::Debug ==> r@ == "debug"@,
            *self == BuildRustChannel::Release ==> r@ == "release"@,
    {
        match self {
            BuildRustChannel::Debug => "debug",
            BuildRustChannel::Release => "release",
        }
    }
}

/// Relies on `is_debug::is_debug`, which reports whether the crate is
/// compiled with debug assertions enabled.
#[verifier::external_body]
fn is_debug_build() -> bool {
    is_debug::is_debug()
}

/// The variant a flag from the build configuration selects.
pub fn channel_of(debug: bool) -> (r: BuildRustChannel)
    ensures
        r == (if debug {
            BuildRustChannel::Debug
        } else {
            BuildRustChannel::Release
        }),
{
    if debug {
        BuildRustChannel::Debug
    } else {
        BuildRustChannel::Release
    }
}

/// The build variant of the running compilation, read from the build
/// configuration.
pub fn build_channel() -> BuildRustChannel {
    channel_of(is_debug_build())
}

} // verus!

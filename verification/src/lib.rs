//! Build-time provenance facts, resolved once per build and emitted as a
//! deterministic text artifact of typed constant declarations.
//!
//! The crate gathers facts about the build (package metadata, toolchain
//! versions, the state of the source repository, the build time), applies
//! fixed precedence rules between the sources, and serialises the resolved
//! fact table. The caller-facing build orchestration lives outside; this
//! library holds the resolution, parsing, redaction, time normalisation and
//! generation logic.

pub mod channel;
pub mod ci;
pub mod civil;
pub mod date_time;
pub mod env;
pub mod err;
pub mod fact;
pub mod build_fn;
pub mod gen;
pub mod gen_const;
pub mod git;
pub mod repo;
pub mod shadow;
pub mod strutil;
pub mod time;

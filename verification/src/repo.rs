//! The embedded repository adapter: thin trusted wrappers over the
//! version-control library, each returning plain values, and the
//! verified classification of working-tree status entries.
//!
//! Every wrapper's result depends on the repository on disk, so the
//! wrappers promise nothing of the values; the logic that consumes them
//! is verified for every possible answer.

use vstd::prelude::*;

verus! {

/// The repository handle type of the embedded version-control library,
/// declared so that wrappers can pass it through.
#[verifier::external_type_specification]
#[verifier::external_body]
pub struct ExRepository(git2::Repository);

/// Relies on `git2::Repository::discover`: opens the repository that
/// contains `path`, walking upwards; fails when there is none.
#[verifier::external_body]
pub fn repo_discover(path: &str) -> Option<git2::Repository> {
    git2::Repository::discover(path).ok()
}

/// Relies on `git2::Repository::head` and `git2::Reference::shorthand`:
/// the short name of the checked-out reference.
#[verifier::external_body]
pub fn repo_head_branch(repo: &git2::Repository) -> Option<String> {
    match repo.head() {
        Ok(r) => match r.shorthand() {
            Ok(s) => Some(s.to_string()),
            Err(_) => None,
        },
        Err(_) => None,
    }
}

/// Relies on `git2::Repository::head` and `git2::Reference::target`:
/// the full hex hash the head reference points at.
#[verifier::external_body]
pub fn repo_head_commit(repo: &git2::Repository) -> Option<String> {
    match repo.head() {
        Ok(r) => r.target().map(|oid| oid.to_string()),
        Err(_) => None,
    }
}

/// Relies on `git2::Reference::peel_to_commit`, `git2::Commit::author`,
/// `git2::Signature::name` and `git2::Signature::email`: the author
/// name and e-mail address of the head commit.
#[verifier::external_body]
pub fn repo_head_author(repo: &git2::Repository) -> Option<(String, String)> {
    let commit = repo.head().ok()?.peel_to_commit().ok()?;
    let author = commit.author();
    let name = author.name().ok()?.to_string();
    let email = author.email().ok()?.to_string();
    Some((name, email))
}

/// Relies on `git2::Reference::peel_to_commit` and
/// `git2::Commit::time`: the head commit's time as Unix seconds and the
/// offset minutes it was recorded in.
#[verifier::external_body]
pub fn repo_head_time(repo: &git2::Repository) -> Option<(i64, i32)> {
    let commit = repo.head().ok()?.peel_to_commit().ok()?;
    let t = commit.time();
    Some((t.seconds(), t.offset_minutes()))
}

/// Relies on `git2::Repository::statuses` (with
/// `git2::StatusOptions::include_ignored` off): one entry per changed
/// file, as its path, when it is readable text, and the raw status
/// bits.
#[verifier::external_body]
pub fn repo_status_entries(repo: &git2::Repository) -> Option<Vec<(Option<String>, u32)>> {
    let mut opts = git2::StatusOptions::new();
    opts.include_ignored(false);
    let statuses = repo.statuses(Some(&mut opts)).ok()?;
    Some(
        statuses.iter().map(|e| (e.path().ok().map(|p| p.to_string()), e.status().bits())).collect(),
    )
}

/// Whether the status bits name exactly one index-side change: these
/// are the bit values the underlying library documents for index-new,
/// -modified, -deleted, -renamed and -typechange.
pub open spec fn staged_bits(b: u32) -> bool {
    b == 1 || b == 2 || b == 4 || b == 8 || b == 16
}

/// The dirty files of a status listing: the readable paths whose bits
/// are neither clean nor exactly one index-side change.
pub open spec fn dirty_paths(s: Seq<(Option<String>, u32)>) -> Seq<Seq<char>>
    decreases s.len(),
{
    if s.len() == 0 {
        Seq::empty()
    } else {
        let rest = dirty_paths(s.drop_last());
        match s.last().0 {
            Some(p) => if s.last().1 != 0 && !staged_bits(s.last().1) {
                rest.push(p@)
            } else {
                rest
            },
            None => rest,
        }
    }
}

/// The staged files of a status listing: the readable paths whose bits
/// are exactly one index-side change.
pub open spec fn staged_paths(s: Seq<(Option<String>, u32)>) -> Seq<Seq<char>>
    decreases s.len(),
{
    if s.len() == 0 {
        Seq::empty()
    } else {
        let rest = staged_paths(s.drop_last());
        match s.last().0 {
            Some(p) => if staged_bits(s.last().1) {
                rest.push(p@)
            } else {
                rest
            },
            None => rest,
        }
    }
}

/// Split a status listing into its dirty and staged file paths, in
/// listing order.
pub fn classify_status_entries(entries: &Vec<(Option<String>, u32)>) -> (r: (
    Vec<String>,
    Vec<String>,
))
    ensures
        r.0@.map_values(|p: String| p@) == dirty_paths(entries@),
        r.1@.map_values(|p: String| p@) == staged_paths(entries@),
{
    let mut dirty: Vec<String> = Vec::new();
    let mut staged: Vec<String> = Vec::new();
    let n: usize = entries.len();
    let mut i: usize = 0;
    proof {
        assert(entries@.subrange(0, 0) =~= Seq::<(Option<String>, u32)>::empty());
        assert(dirty@.map_values(|p: String| p@) =~= dirty_paths(entries@.subrange(0, 0)));
        assert(staged@.map_values(|p: String| p@) =~= staged_paths(entries@.subrange(0, 0)));
    }
    while i < n
        invariant
            i <= n,
            n == entries@.len(),
            dirty@.map_values(|p: String| p@) == dirty_paths(entries@.subrange(0, i as int)),
            staged@.map_values(|p: String| p@) == staged_paths(entries@.subrange(0, i as int)),
        decreases n - i,
    {
        let bits: u32 = entries[i].1;
        match &entries[i].0 {
            Some(p) => {
                if bits == 0 {
                } else if bits == 1 || bits == 2 || bits == 4 || bits == 8 || bits == 16 {
                    staged.push(p.clone());
                } else {
                    dirty.push(p.clone());
                }
            },
            None => {},
        }
        i = i + 1;
        proof {
            let cur = entries@.subrange(0, i as int);
            assert(cur.drop_last() =~= entries@.subrange(0, i - 1));
            assert(cur.last() == entries@[i - 1]);
            assert(dirty@.map_values(|p: String| p@) =~= dirty_paths(cur));
            assert(staged@.map_values(|p: String| p@) =~= staged_paths(cur));
        }
    }
    proof {
        assert(entries@.subrange(0, n as int) =~= entries@);
    }
    (dirty, staged)
}

} // verus!

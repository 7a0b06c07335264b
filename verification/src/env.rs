//! Environment-derived facts, and the dependency-tree redactor that
//! scrubs source-location annotations from dependency listings before
//! they are stored.

use vstd::prelude::*;

use crate::date_time::{human_chars, rfc2822_chars, rfc3339_chars, DateTime};
use crate::channel::BuildRustChannel;
use crate::fact::{
    env_val, table_value_updated, val_of, ConstType, ConstVal, ConstValView,
    EnvSnapshot, FactTable, FactView, distinct_keys, has_key,
};
use crate::strutil::{
    chars_to_string, contains_seq, find_first, first_match_at, matches_at, push_str_chars,
    slice_chars, str_to_chars,
};

verus! {

// ---------------------------------------------------------------------
// Deterministic "first occurrence" searching, as a spec-level function.
// ---------------------------------------------------------------------
/// The first position at or after `i` where `pat` occurs in `s`.
pub open spec fn find_from(s: Seq<char>, pat: Seq<char>, i: int) -> Option<int>
    decreases s.len() - i + 1,
{
    if i < 0 || i + pat.len() > s.len() {
        None
    } else if matches_at(s, pat, i) {
        Some(i)
    } else {
        find_from(s, pat, i + 1)
    }
}

/// The first position where `pat` occurs in `s`.
pub open spec fn find_seq(s: Seq<char>, pat: Seq<char>) -> Option<int> {
    find_from(s, pat, 0)
}

/// `find_from` finds exactly the first match at or after `i`.
pub proof fn lemma_find_from(s: Seq<char>, pat: Seq<char>, i: int)
    requires
        0 <= i,
    ensures
        match find_from(s, pat, i) {
            Some(j) => {
                &&& i <= j
                &&& matches_at(s, pat, j)
                &&& forall|k: int| i <= k < j ==> !matches_at(s, pat, k)
            },
            None => forall|k: int| k >= i ==> !matches_at(s, pat, k),
        },
    decreases s.len() - i + 1,
{
    if i + pat.len() > s.len() {
        assert(forall|k: int| k >= i ==> !matches_at(s, pat, k));
    } else if matches_at(s, pat, i) {
    } else {
        lemma_find_from(s, pat, i + 1);
    }
}

/// `find_seq` agrees with the `first_match_at` characterisation that the
/// executable search returns.
pub proof fn lemma_find_seq_exact(s: Seq<char>, pat: Seq<char>)
    ensures
        match find_seq(s, pat) {
            Some(j) => first_match_at(s, pat, j),
            None => !contains_seq(s, pat),
        },
{
    lemma_find_from(s, pat, 0);
    match find_seq(s, pat) {
        Some(j) => {},
        None => {
            assert forall|at: int| !matches_at(s, pat, at) by {
                if at < 0 {
                } else {
                    assert(!matches_at(s, pat, at));
                }
            }
        },
    }
}

/// And conversely: the position the executable search returns is the one
/// `find_seq` denotes.
pub proof fn lemma_first_match_is_find_seq(s: Seq<char>, pat: Seq<char>, j: int)
    requires
        first_match_at(s, pat, j),
    ensures
        find_seq(s, pat) == Some(j),
{
    lemma_find_seq_exact(s, pat);
    match find_seq(s, pat) {
        Some(j2) => {
            if j2 < j {
                assert(!matches_at(s, pat, j2));
            } else if j < j2 {
                assert(!matches_at(s, pat, j));
            }
        },
        None => {
            assert(contains_seq(s, pat));
        },
    }
}

/// The executable first-occurrence search, stated against `find_seq`.
fn find_in(v: &Vec<char>, pat: &str) -> (r: Option<usize>)
    ensures
        match r {
            Some(j) => find_seq(v@, pat@) == Some(j as int),
            None => find_seq(v@, pat@) is None,
        },
{
    let pat_chars = str_to_chars(pat);
    let r = find_first(v, &pat_chars);
    proof {
        match r {
            Some(j) => lemma_first_match_is_find_seq(v@, pat@, j as int),
            None => {
                lemma_find_seq_exact(v@, pat@);
            },
        }
    }
    r
}

// ---------------------------------------------------------------------
// Whitespace trimming.
// ---------------------------------------------------------------------
/// The whitespace characters the trimming recognises: the Unicode
/// white-space set, as the standard trimming removes it.
pub open spec fn is_space_char(c: char) -> bool {
    ||| c == '\t'
    ||| c == '\n'
    ||| c == '\u{000B}'
    ||| c == '\u{000C}'
    ||| c == '\r'
    ||| c == ' '
    ||| c == '\u{0085}'
    ||| c == '\u{00A0}'
    ||| c == '\u{1680}'
    ||| ('\u{2000}' <= c && c <= '\u{200A}')
    ||| c == '\u{2028}'
    ||| c == '\u{2029}'
    ||| c == '\u{202F}'
    ||| c == '\u{205F}'
    ||| c == '\u{3000}'
}

/// `s` without its leading whitespace.
pub open spec fn trim_start_spaces(s: Seq<char>) -> Seq<char>
    decreases s.len(),
{
    if s.len() > 0 && is_space_char(s[0]) {
        trim_start_spaces(s.subrange(1, s.len() as int))
    } else {
        s
    }
}

/// `s` without its trailing whitespace.
pub open spec fn trim_end_spaces(s: Seq<char>) -> Seq<char>
    decreases s.len(),
{
    if s.len() > 0 && is_space_char(s.last()) {
        trim_end_spaces(s.drop_last())
    } else {
        s
    }
}

/// `s` without leading and trailing whitespace.
pub open spec fn trim_spaces(s: Seq<char>) -> Seq<char> {
    trim_end_spaces(trim_start_spaces(s))
}

/// Whether `c` is whitespace, as executable code.
pub fn is_space(c: char) -> (r: bool)
    ensures
        r == is_space_char(c),
{
    c == '\t' || c == '\n' || c == '\u{000B}' || c == '\u{000C}' || c == '\r' || c == ' '
        || c == '\u{0085}' || c == '\u{00A0}' || c == '\u{1680}' || ('\u{2000}' <= c && c
        <= '\u{200A}') || c == '\u{2028}' || c == '\u{2029}' || c == '\u{202F}'
        || c == '\u{205F}' || c == '\u{3000}'
}

/// If positions `from..a` are whitespace and `a` is not (or is the end),
/// the trimmed front of `s[from..to]` starts at `a`.
proof fn lemma_trim_start_position(s: Seq<char>, from: int, a: int, to: int)
    requires
        0 <= from <= a <= to <= s.len(),
        forall|j: int| from <= j < a ==> is_space_char(s[j]),
        a == to || !is_space_char(s[a]),
    ensures
        trim_start_spaces(s.subrange(from, to)) == s.subrange(a, to),
    decreases a - from,
{
    let seg = s.subrange(from, to);
    if a == from {
        if seg.len() > 0 {
            assert(seg[0] == s[from]);
        }
    } else {
        assert(seg.len() > 0 && is_space_char(seg[0]));
        assert(seg.subrange(1, seg.len() as int) =~= s.subrange(from + 1, to));
        lemma_trim_start_position(s, from + 1, a, to);
    }
}

/// If positions `b..to` are whitespace and `b - 1` is not (or `b` is the
/// start), the trimmed back of `s[from..to]` ends at `b`.
proof fn lemma_trim_end_position(s: Seq<char>, from: int, b: int, to: int)
    requires
        0 <= from <= b <= to <= s.len(),
        forall|j: int| b <= j < to ==> is_space_char(s[j]),
        b == from || !is_space_char(s[b - 1]),
    ensures
        trim_end_spaces(s.subrange(from, to)) == s.subrange(from, b),
    decreases to - b,
{
    let seg = s.subrange(from, to);
    if b == to {
        if seg.len() > 0 {
            assert(seg.last() == s[to - 1]);
        }
    } else {
        assert(seg.len() > 0 && is_space_char(seg.last()));
        assert(seg.drop_last() =~= s.subrange(from, to - 1));
        lemma_trim_end_position(s, from, b, to - 1);
    }
}

/// The trimmed bounds of `v[from..to]`: the subrange with surrounding
/// whitespace removed.
fn trim_bounds(v: &Vec<char>, from: usize, to: usize) -> (r: (usize, usize))
    requires
        from <= to <= v@.len(),
    ensures
        from <= r.0 <= r.1 <= to,
        v@.subrange(r.0 as int, r.1 as int) == trim_spaces(v@.subrange(from as int, to as int)),
{
    let mut a: usize = from;
    while a < to && is_space(v[a])
        invariant
            from <= a <= to <= v@.len(),
            forall|j: int| from <= j < a ==> is_space_char(v@[j]),
        decreases to - a,
    {
        a = a + 1;
    }
    let mut b: usize = to;
    while b > a && is_space(v[b - 1])
        invariant
            a <= b <= to <= v@.len(),
            forall|j: int| b <= j < to ==> is_space_char(v@[j]),
        decreases b,
    {
        b = b - 1;
    }
    proof {
        lemma_trim_start_position(v@, from as int, a as int, to as int);
        if b == a {
            lemma_trim_end_position(v@, a as int, b as int, to as int);
        } else {
            lemma_trim_end_position(v@, a as int, b as int, to as int);
        }
    }
    (a, b)
}


// ---------------------------------------------------------------------
// The dependency-tree redactor.
// ---------------------------------------------------------------------
/// The filesystem path that a line's trailing parenthesised suffix
/// proposes, when no fixed marker matched: the trimmed text between the
/// first ` (` and the first `)`, or empty when the parenthesis pair is
/// inverted or empty.
pub open spec fn spec_dep_candidate(s: Seq<char>) -> Option<Seq<char>> {
    match find_seq(s, " ("@) {
        Some(p) => match find_seq(s, ")"@) {
            Some(q) => Some(
                if p + 2 <= q {
                    trim_spaces(s.subrange(p + 2, q))
                } else {
                    Seq::<char>::empty()
                },
            ),
            None => None,
        },
        None => None,
    }
}

/// What redaction does to one dependency line.
///
/// The fixed markers are probed in a fixed priority order: a local path,
/// a registry annotation, then a version-control URL. The whole suffix
/// from the matched marker on is replaced by the corresponding fixed
/// tag. When no marker matches but the line carries a parenthesised
/// suffix naming an existing filesystem path (`candidate_exists`), the
/// suffix is redacted as a path; any other line is returned unchanged.
pub open spec fn spec_redact_line(s: Seq<char>, candidate_exists: bool) -> Seq<char> {
    match find_seq(s, " (/"@) {
        Some(p) => s.subrange(0, p) + " (* path)"@,
        None => match find_seq(s, " (registry "@) {
            Some(p) => s.subrange(0, p) + " (* registry)"@,
            None => match find_seq(s, " (http"@) {
                Some(p) => s.subrange(0, p) + " (* git)"@,
                None => match find_seq(s, " (ssh"@) {
                    Some(p) => s.subrange(0, p) + " (* git)"@,
                    None => if spec_dep_candidate(s) is Some && candidate_exists {
                        s.subrange(0, find_seq(s, " ("@)->Some_0) + " (* path)"@
                    } else {
                        s
                    },
                },
            },
        },
    }
}

/// A line without any parenthesised suffix passes through redaction
/// byte-identical, whatever the filesystem says.
pub proof fn lemma_redact_no_annotation(s: Seq<char>, candidate_exists: bool)
    requires
        !contains_seq(s, " ("@),
    ensures
        spec_redact_line(s, candidate_exists) == s,
{
    reveal_strlit(" (/");
    reveal_strlit(" (registry ");
    reveal_strlit(" (http");
    reveal_strlit(" (ssh");
    reveal_strlit(" (");
    lemma_marker_needs_paren(s, " (/"@);
    lemma_marker_needs_paren(s, " (registry "@);
    lemma_marker_needs_paren(s, " (http"@);
    lemma_marker_needs_paren(s, " (ssh"@);
    lemma_find_seq_exact(s, " ("@);
}

/// A marker extending ` (` cannot occur where ` (` does not.
proof fn lemma_marker_needs_paren(s: Seq<char>, marker: Seq<char>)
    requires
        !contains_seq(s, " ("@),
        marker.len() >= 2,
        marker[0] == ' ',
        marker[1] == '(',
    ensures
        find_seq(s, marker) is None,
{
    lemma_find_seq_exact(s, marker);
    reveal_strlit(" (");
    match find_seq(s, marker) {
        Some(p) => {
            assert(matches_at(s, marker, p));
            assert(s.subrange(p, p + marker.len() as int)[0] == ' ');
            assert(s.subrange(p, p + marker.len() as int)[1] == '(');
            assert(s.subrange(p, p + 2) =~= " ("@);
            assert(matches_at(s, " ("@, p));
        },
        None => {},
    }
}

/// Relies on `std::path::Path::exists` (through `std::path::Path::new`):
/// whether the named filesystem path exists on the build machine.
#[verifier::external_body]
fn path_exists(path: &str) -> bool {
    std::path::Path::new(path).exists()
}

/// Redact one dependency line, the filesystem probe for the fallback
/// case answered by `candidate_exists`.
pub fn filter_dep_source_at(input: &str, candidate_exists: bool) -> (r: String)
    ensures
        r@ == spec_redact_line(input@, candidate_exists),
{
    let chars = str_to_chars(input);
    let n: usize = chars.len();
    let mut out: Vec<char>;
    if let Some(p) = find_in(&chars, " (/") {
        proof {
            lemma_find_seq_exact(input@, " (/"@);
        }
        out = slice_chars(&chars, 0, p);
        push_str_chars(&mut out, " (* path)");
        return chars_to_string(&out);
    }
    if let Some(p) = find_in(&chars, " (registry ") {
        proof {
            lemma_find_seq_exact(input@, " (registry "@);
        }
        out = slice_chars(&chars, 0, p);
        push_str_chars(&mut out, " (* registry)");
        return chars_to_string(&out);
    }
    if let Some(p) = find_in(&chars, " (http") {
        proof {
            lemma_find_seq_exact(input@, " (http"@);
        }
        out = slice_chars(&chars, 0, p);
        push_str_chars(&mut out, " (* git)");
        return chars_to_string(&out);
    }
    if let Some(p) = find_in(&chars, " (ssh") {
        proof {
            lemma_find_seq_exact(input@, " (ssh"@);
        }
        out = slice_chars(&chars, 0, p);
        push_str_chars(&mut out, " (* git)");
        return chars_to_string(&out);
    }
    if let Some(p) = find_in(&chars, " (") {
        if let Some(_q) = find_in(&chars, ")") {
            if candidate_exists {
                proof {
                    lemma_find_seq_exact(input@, " ("@);
                }
                out = slice_chars(&chars, 0, p);
                push_str_chars(&mut out, " (* path)");
                return chars_to_string(&out);
            }
        }
    }
    String::from_str(input)
}

/// The probed path of a line's fallback suffix, when there is one.
pub fn dep_source_candidate(input: &str) -> (r: Option<String>)
    ensures
        match r {
            Some(c) => spec_dep_candidate(input@) == Some(c@),
            None => spec_dep_candidate(input@) is None,
        },
{
    let chars = str_to_chars(input);
    let n: usize = chars.len();
    if let Some(p) = find_in(&chars, " (") {
        if let Some(q) = find_in(&chars, ")") {
            proof {
                lemma_find_seq_exact(input@, " ("@);
                lemma_find_seq_exact(input@, ")"@);
                reveal_strlit(" (");
                reveal_strlit(")");
            }
            if p + 2 <= q {
                let (a, b) = trim_bounds(&chars, p + 2, q);
                return Some(chars_to_string(&slice_chars(&chars, a, b)));
            } else {
                let empty: Vec<char> = Vec::new();
                proof {
                    assert(empty@ =~= Seq::<char>::empty());
                }
                return Some(chars_to_string(&empty));
            }
        }
    }
    None
}

/// Redact one line of a dependency listing.
///
/// The fixed markers decide on their own; only the fallback case (a
/// parenthesised suffix with no recognised marker) consults the
/// filesystem, so for every line the result is the redaction under one
/// of the two possible probe answers.
pub fn filter_dep_source(input: &str) -> (r: String)
    ensures
        r@ == spec_redact_line(input@, true) || r@ == spec_redact_line(input@, false),
{
    match dep_source_candidate(input) {
        Some(candidate) => {
            let exists = path_exists(candidate.as_str());
            filter_dep_source_at(input, exists)
        },
        None => filter_dep_source_at(input, false),
    }
}

/// Whether every character of `s` is whitespace, so that the line joiner
/// treats the accumulated text as still empty.
pub open spec fn is_blank(s: Seq<char>) -> bool {
    forall|i: int| 0 <= i < s.len() ==> is_space_char(#[trigger] s[i])
}

/// Whether the accumulated text is blank, as executable code.
pub fn is_blank_str(s: &String) -> (r: bool)
    ensures
        r == is_blank(s@),
{
    let st: &str = s.as_str();
    let n: usize = st.unicode_len();
    let mut i: usize = 0;
    while i < n
        invariant
            i <= n,
            n == st@.len(),
            st@ == s@,
            forall|j: int| 0 <= j < i ==> is_space_char(#[trigger] st@[j]),
        decreases n - i,
    {
        if !is_space(st.get_char(i)) {
            return false;
        }
        i = i + 1;
    }
    true
}

/// Whether `val` is a possible redaction of `line`: the redacted text
/// under one of the two filesystem answers.
pub open spec fn redact_ok(line: Seq<char>, val: Seq<char>) -> bool {
    val == spec_redact_line(line, true) || val == spec_redact_line(line, false)
}

/// How the redacted lines are rejoined: the accumulator starts as one
/// newline, and each line is appended directly while the accumulated
/// text is still blank, with a separating newline afterwards.
pub open spec fn tree_fold(vals: Seq<Seq<char>>) -> Seq<char>
    decreases vals.len(),
{
    if vals.len() == 0 {
        "\n"@
    } else {
        let prev = tree_fold(vals.drop_last());
        if is_blank(prev) {
            prev + vals.last()
        } else {
            prev + "\n"@ + vals.last()
        }
    }
}

/// Redact every line of a dependency listing and rejoin them, keeping
/// the leading newline of the listing shape.
pub fn filter_cargo_tree(lines: Vec<&str>) -> (r: String)
    ensures
        exists|vals: Seq<Seq<char>>|
            {
                &&& vals.len() == lines@.len()
                &&& (forall|i: int|
                    0 <= i < vals.len() ==> redact_ok(lines@[i]@, #[trigger] vals[i]))
                &&& r@ == #[trigger] tree_fold(vals)
            },
{
    let mut tree: String = String::from_str("\n");
    let ghost mut vals: Seq<Seq<char>> = Seq::empty();
    proof {
        assert(vals =~= Seq::<Seq<char>>::empty());
    }
    let n: usize = lines.len();
    let mut i: usize = 0;
    while i < n
        invariant
            i <= n,
            n == lines@.len(),
            vals.len() == i,
            forall|j: int| 0 <= j < i ==> redact_ok(lines@[j]@, #[trigger] vals[j]),
            tree@ == tree_fold(vals),
        decreases n - i,
    {
        let val = filter_dep_source(lines[i]);
        if is_blank_str(&tree) {
            tree.append(val.as_str());
        } else {
            tree.append("\n");
            tree.append(val.as_str());
        }
        proof {
            let prev_vals = vals;
            vals = vals.push(val@);
            assert(vals.drop_last() =~= prev_vals);
            assert(tree@ == tree_fold(vals));
        }
        i = i + 1;
    }
    tree
}


} // verus!

verus! {

pub const BUILD_OS_DOC: &'static str = "\nOperating system and architecture on which the project was built.\nThe format of this variable is always `os-arch`,\nwhere `os` is the operating system name and `arch` the computer architecture,\nas the toolchain reports them for the build platform.";

pub const RUST_VERSION_DOC: &'static str = "\nRust version with which the project was built.\nThe version always uses the canonical Rust version format,\nand is therefore identical to the output of the build toolchain's `rustc --version`.";

pub const RUST_CHANNEL_DOC: &'static str = "\nThe Rustup toolchain with which the project was built.\nNote that as per Rustup toolchain format, this variable may or may not contain host and date information,\nbut it will always contain channel information (stable, beta or nightly).";

pub const CARGO_METADATA_DOC: &'static str = "\nThe information about the workspace members and resolved dependencies of the current package.\nSee the `cargo_metadata` crate for a Rust API for reading the metadata.";

pub const CARGO_VERSION_DOC: &'static str = "\nThe cargo version which which the project was built, as output by `cargo --version`.";

pub const CARGO_TREE_DOC: &'static str = "\nThe dependency tree of the project, as output by `cargo tree`.\nNote that this variable may contain local file system paths for path dependencies, and may therefore contain sensitive information and not be reproducible.";

pub const BUILD_TARGET_DOC: &'static str = "\nThe target for this build.\nThis is possibly distinct from the host target during build, in which case this project build was created via cross-compilation.";

pub const BUILD_TARGET_ARCH_DOC: &'static str = "\nThe architecture of the target for this build. This is the \"architecture\" part of the build target constant.";

pub const CARGO_MANIFEST_DIR_DOC: &'static str = "\nThe directory of the Cargo.toml manifest file of the project during build.\nNote that this variable will contain a full local file system path, and will therefore contain sensitive information and not be reproducible.";

pub const PKG_VERSION_DOC: &'static str = "\nThe project's full version string, as determined by the Cargo.toml manifest.";

pub const PKG_DESCRIPTION_DOC: &'static str = "\nThe project's description, as determined by the Cargo.toml manifest.";

pub const PKG_VERSION_MAJOR_DOC: &'static str = "\nThe project's semver major version, as determined by the Cargo.toml manifest.";

pub const PKG_VERSION_MINOR_DOC: &'static str = "\nThe project's semver minor version, as determined by the Cargo.toml manifest.";

pub const PKG_VERSION_PATCH_DOC: &'static str = "\nThe project's semver patch version, as determined by the Cargo.toml manifest.";

pub const PKG_VERSION_PRE_DOC: &'static str = "\nThe project's semver pre-release version, as determined by the Cargo.toml manifest.";

pub const PROJECT_NAME_DOC: &'static str = "\nThe project name, as determined by the Cargo.toml manifest.";

pub const BUILD_TIME_DOC: &'static str = "\nThe project build time, formatted in modified ISO 8601 format (`YYYY-MM-DD HH-MM ±hh-mm` where hh-mm is the offset from UTC).";

pub const BUILD_TIME_2822_DOC: &'static str = "\nThe project build time, formatted according to RFC 2822 (e.g. HTTP Headers).";

pub const BUILD_TIME_3339_DOC: &'static str = "\nThe project build time, formatted according to RFC 3339 and ISO 8601.";

pub const BUILD_RUST_CHANNEL_DOC: &'static str = "\nThe debug configuration with which the project was built.\nNote that this is not the Rust channel, but either `debug` or `release`, depending on whether debug assertions were enabled in the build or not. ";

/// Trim surrounding whitespace from a string.
pub fn trim_string(s: &str) -> (r: String)
    ensures
        r@ == trim_spaces(s@),
{
    let chars = str_to_chars(s);
    let n: usize = chars.len();
    let (a, b) = trim_bounds(&chars, 0, n);
    proof {
        assert(chars@.subrange(0, n as int) =~= s@);
    }
    chars_to_string(&slice_chars(&chars, a, b))
}

/// The segments of `s` between its newline characters, in order.
pub open spec fn split_nl(s: Seq<char>) -> Seq<Seq<char>>
    decreases s.len(),
{
    match find_seq(s, "\n"@) {
        Some(p) => if 0 <= p && p + 1 <= s.len() {
            seq![s.subrange(0, p)] + split_nl(s.subrange(p + 1, s.len() as int))
        } else {
            seq![s]
        },
        None => seq![s],
    }
}

/// Split a string on its newline characters.
pub fn split_newlines(s: &str) -> (r: Vec<String>)
    ensures
        r@.map_values(|x: String| x@) == split_nl(s@),
{
    let chars = str_to_chars(s);
    let n: usize = chars.len();
    let mut out: Vec<String> = Vec::new();
    let mut start: usize = 0;
    let mut fin: bool = false;
    proof {
        assert(out@.map_values(|x: String| x@) =~= Seq::<Seq<char>>::empty());
        assert(chars@.subrange(0, n as int) =~= s@);
        assert(out@.map_values(|x: String| x@) + split_nl(s@) =~= split_nl(s@));
    }
    while !fin
        invariant
            start <= n,
            n == chars@.len(),
            chars@ == s@,
            !fin ==> split_nl(s@) == out@.map_values(|x: String| x@) + split_nl(
                chars@.subrange(start as int, n as int),
            ),
            fin ==> split_nl(s@) == out@.map_values(|x: String| x@),
        decreases n - start + (if fin {
            0int
        } else {
            1int
        }),
    {
        let rest = slice_chars(&chars, start, n);
        match find_in(&rest, "\n") {
            Some(p) => {
                proof {
                    lemma_find_seq_exact(rest@, "\n"@);
                    reveal_strlit("\n");
                }
                out.push(chars_to_string(&slice_chars(&rest, 0, p)));
                start = start + p + 1;
                proof {
                    let prev_rest = rest@;
                    let new_rest = chars@.subrange(start as int, n as int);
                    assert(new_rest =~= prev_rest.subrange(p + 1, prev_rest.len() as int));
                    assert(out@.map_values(|x: String| x@) =~= out@.map_values(
                        |x: String| x@,
                    ).subrange(0, out@.len() - 1).push(prev_rest.subrange(0, p as int)));
                    assert(split_nl(prev_rest) == seq![prev_rest.subrange(0, p as int)]
                        + split_nl(new_rest));
                    assert(out@.map_values(|x: String| x@) + split_nl(new_rest) =~= out@.map_values(
                        |x: String| x@,
                    ).subrange(0, out@.len() - 1) + split_nl(prev_rest));
                }
            },
            None => {
                out.push(chars_to_string(&rest));
                fin = true;
                proof {
                    assert(split_nl(rest@) =~= seq![rest@]);
                    assert(out@.map_values(|x: String| x@) =~= out@.map_values(
                        |x: String| x@,
                    ).subrange(0, out@.len() - 1) + split_nl(rest@));
                }
            },
        }
    }
    out
}

} // verus!

verus! {

/// The environment and project fact keys are pairwise distinct.
pub proof fn lemma_env_key_literals_distinct()
    ensures
        "BUILD_OS"@ != "RUST_CHANNEL"@,
        "BUILD_OS"@ != "CARGO_METADATA"@,
        "BUILD_OS"@ != "RUST_VERSION"@,
        "BUILD_OS"@ != "CARGO_VERSION"@,
        "BUILD_OS"@ != "CARGO_TREE"@,
        "BUILD_OS"@ != "BUILD_TARGET"@,
        "BUILD_OS"@ != "BUILD_TARGET_ARCH"@,
        "BUILD_OS"@ != "PKG_VERSION"@,
        "BUILD_OS"@ != "PKG_DESCRIPTION"@,
        "BUILD_OS"@ != "PKG_VERSION_MAJOR"@,
        "BUILD_OS"@ != "PKG_VERSION_MINOR"@,
        "BUILD_OS"@ != "PKG_VERSION_PATCH"@,
        "BUILD_OS"@ != "PKG_VERSION_PRE"@,
        "BUILD_OS"@ != "CARGO_MANIFEST_DIR"@,
        "BUILD_OS"@ != "BUILD_TIME"@,
        "BUILD_OS"@ != "BUILD_TIME_2822"@,
        "BUILD_OS"@ != "BUILD_TIME_3339"@,
        "BUILD_OS"@ != "BUILD_RUST_CHANNEL"@,
        "BUILD_OS"@ != "PROJECT_NAME"@,
        "RUST_CHANNEL"@ != "CARGO_METADATA"@,
        "RUST_CHANNEL"@ != "RUST_VERSION"@,
        "RUST_CHANNEL"@ != "CARGO_VERSION"@,
        "RUST_CHANNEL"@ != "CARGO_TREE"@,
        "RUST_CHANNEL"@ != "BUILD_TARGET"@,
        "RUST_CHANNEL"@ != "BUILD_TARGET_ARCH"@,
        "RUST_CHANNEL"@ != "PKG_VERSION"@,
        "RUST_CHANNEL"@ != "PKG_DESCRIPTION"@,
        "RUST_CHANNEL"@ != "PKG_VERSION_MAJOR"@,
        "RUST_CHANNEL"@ != "PKG_VERSION_MINOR"@,
        "RUST_CHANNEL"@ != "PKG_VERSION_PATCH"@,
        "RUST_CHANNEL"@ != "PKG_VERSION_PRE"@,
        "RUST_CHANNEL"@ != "CARGO_MANIFEST_DIR"@,
        "RUST_CHANNEL"@ != "BUILD_TIME"@,
        "RUST_CHANNEL"@ != "BUILD_TIME_2822"@,
        "RUST_CHANNEL"@ != "BUILD_TIME_3339"@,
        "RUST_CHANNEL"@ != "BUILD_RUST_CHANNEL"@,
        "RUST_CHANNEL"@ != "PROJECT_NAME"@,
        "CARGO_METADATA"@ != "RUST_VERSION"@,
        "CARGO_METADATA"@ != "CARGO_VERSION"@,
        "CARGO_METADATA"@ != "CARGO_TREE"@,
        "CARGO_METADATA"@ != "BUILD_TARGET"@,
        "CARGO_METADATA"@ != "BUILD_TARGET_ARCH"@,
        "CARGO_METADATA"@ != "PKG_VERSION"@,
        "CARGO_METADATA"@ != "PKG_DESCRIPTION"@,
        "CARGO_METADATA"@ != "PKG_VERSION_MAJOR"@,
        "CARGO_METADATA"@ != "PKG_VERSION_MINOR"@,
        "CARGO_METADATA"@ != "PKG_VERSION_PATCH"@,
        "CARGO_METADATA"@ != "PKG_VERSION_PRE"@,
        "CARGO_METADATA"@ != "CARGO_MANIFEST_DIR"@,
        "CARGO_METADATA"@ != "BUILD_TIME"@,
        "CARGO_METADATA"@ != "BUILD_TIME_2822"@,
        "CARGO_METADATA"@ != "BUILD_TIME_3339"@,
        "CARGO_METADATA"@ != "BUILD_RUST_CHANNEL"@,
        "CARGO_METADATA"@ != "PROJECT_NAME"@,
        "RUST_VERSION"@ != "CARGO_VERSION"@,
        "RUST_VERSION"@ != "CARGO_TREE"@,
        "RUST_VERSION"@ != "BUILD_TARGET"@,
        "RUST_VERSION"@ != "BUILD_TARGET_ARCH"@,
        "RUST_VERSION"@ != "PKG_VERSION"@,
        "RUST_VERSION"@ != "PKG_DESCRIPTION"@,
        "RUST_VERSION"@ != "PKG_VERSION_MAJOR"@,
        "RUST_VERSION"@ != "PKG_VERSION_MINOR"@,
        "RUST_VERSION"@ != "PKG_VERSION_PATCH"@,
        "RUST_VERSION"@ != "PKG_VERSION_PRE"@,
        "RUST_VERSION"@ != "CARGO_MANIFEST_DIR"@,
        "RUST_VERSION"@ != "BUILD_TIME"@,
        "RUST_VERSION"@ != "BUILD_TIME_2822"@,
        "RUST_VERSION"@ != "BUILD_TIME_3339"@,
        "RUST_VERSION"@ != "BUILD_RUST_CHANNEL"@,
        "RUST_VERSION"@ != "PROJECT_NAME"@,
        "CARGO_VERSION"@ != "CARGO_TREE"@,
        "CARGO_VERSION"@ != "BUILD_TARGET"@,
        "CARGO_VERSION"@ != "BUILD_TARGET_ARCH"@,
        "CARGO_VERSION"@ != "PKG_VERSION"@,
        "CARGO_VERSION"@ != "PKG_DESCRIPTION"@,
        "CARGO_VERSION"@ != "PKG_VERSION_MAJOR"@,
        "CARGO_VERSION"@ != "PKG_VERSION_MINOR"@,
        "CARGO_VERSION"@ != "PKG_VERSION_PATCH"@,
        "CARGO_VERSION"@ != "PKG_VERSION_PRE"@,
        "CARGO_VERSION"@ != "CARGO_MANIFEST_DIR"@,
        "CARGO_VERSION"@ != "BUILD_TIME"@,
        "CARGO_VERSION"@ != "BUILD_TIME_2822"@,
        "CARGO_VERSION"@ != "BUILD_TIME_3339"@,
        "CARGO_VERSION"@ != "BUILD_RUST_CHANNEL"@,
        "CARGO_VERSION"@ != "PROJECT_NAME"@,
        "CARGO_TREE"@ != "BUILD_TARGET"@,
        "CARGO_TREE"@ != "BUILD_TARGET_ARCH"@,
        "CARGO_TREE"@ != "PKG_VERSION"@,
        "CARGO_TREE"@ != "PKG_DESCRIPTION"@,
        "CARGO_TREE"@ != "PKG_VERSION_MAJOR"@,
        "CARGO_TREE"@ != "PKG_VERSION_MINOR"@,
        "CARGO_TREE"@ != "PKG_VERSION_PATCH"@,
        "CARGO_TREE"@ != "PKG_VERSION_PRE"@,
        "CARGO_TREE"@ != "CARGO_MANIFEST_DIR"@,
        "CARGO_TREE"@ != "BUILD_TIME"@,
        "CARGO_TREE"@ != "BUILD_TIME_2822"@,
        "CARGO_TREE"@ != "BUILD_TIME_3339"@,
        "CARGO_TREE"@ != "BUILD_RUST_CHANNEL"@,
        "CARGO_TREE"@ != "PROJECT_NAME"@,
        "BUILD_TARGET"@ != "BUILD_TARGET_ARCH"@,
        "BUILD_TARGET"@ != "PKG_VERSION"@,
        "BUILD_TARGET"@ != "PKG_DESCRIPTION"@,
        "BUILD_TARGET"@ != "PKG_VERSION_MAJOR"@,
        "BUILD_TARGET"@ != "PKG_VERSION_MINOR"@,
        "BUILD_TARGET"@ != "PKG_VERSION_PATCH"@,
        "BUILD_TARGET"@ != "PKG_VERSION_PRE"@,
        "BUILD_TARGET"@ != "CARGO_MANIFEST_DIR"@,
        "BUILD_TARGET"@ != "BUILD_TIME"@,
        "BUILD_TARGET"@ != "BUILD_TIME_2822"@,
        "BUILD_TARGET"@ != "BUILD_TIME_3339"@,
        "BUILD_TARGET"@ != "BUILD_RUST_CHANNEL"@,
        "BUILD_TARGET"@ != "PROJECT_NAME"@,
        "BUILD_TARGET_ARCH"@ != "PKG_VERSION"@,
        "BUILD_TARGET_ARCH"@ != "PKG_DESCRIPTION"@,
        "BUILD_TARGET_ARCH"@ != "PKG_VERSION_MAJOR"@,
        "BUILD_TARGET_ARCH"@ != "PKG_VERSION_MINOR"@,
        "BUILD_TARGET_ARCH"@ != "PKG_VERSION_PATCH"@,
        "BUILD_TARGET_ARCH"@ != "PKG_VERSION_PRE"@,
        "BUILD_TARGET_ARCH"@ != "CARGO_MANIFEST_DIR"@,
        "BUILD_TARGET_ARCH"@ != "BUILD_TIME"@,
        "BUILD_TARGET_ARCH"@ != "BUILD_TIME_2822"@,
        "BUILD_TARGET_ARCH"@ != "BUILD_TIME_3339"@,
        "BUILD_TARGET_ARCH"@ != "BUILD_RUST_CHANNEL"@,
        "BUILD_TARGET_ARCH"@ != "PROJECT_NAME"@,
        "PKG_VERSION"@ != "PKG_DESCRIPTION"@,
        "PKG_VERSION"@ != "PKG_VERSION_MAJOR"@,
        "PKG_VERSION"@ != "PKG_VERSION_MINOR"@,
        "PKG_VERSION"@ != "PKG_VERSION_PATCH"@,
        "PKG_VERSION"@ != "PKG_VERSION_PRE"@,
        "PKG_VERSION"@ != "CARGO_MANIFEST_DIR"@,
        "PKG_VERSION"@ != "BUILD_TIME"@,
        "PKG_VERSION"@ != "BUILD_TIME_2822"@,
        "PKG_VERSION"@ != "BUILD_TIME_3339"@,
        "PKG_VERSION"@ != "BUILD_RUST_CHANNEL"@,
        "PKG_VERSION"@ != "PROJECT_NAME"@,
        "PKG_DESCRIPTION"@ != "PKG_VERSION_MAJOR"@,
        "PKG_DESCRIPTION"@ != "PKG_VERSION_MINOR"@,
        "PKG_DESCRIPTION"@ != "PKG_VERSION_PATCH"@,
        "PKG_DESCRIPTION"@ != "PKG_VERSION_PRE"@,
        "PKG_DESCRIPTION"@ != "CARGO_MANIFEST_DIR"@,
        "PKG_DESCRIPTION"@ != "BUILD_TIME"@,
        "PKG_DESCRIPTION"@ != "BUILD_TIME_2822"@,
        "PKG_DESCRIPTION"@ != "BUILD_TIME_3339"@,
        "PKG_DESCRIPTION"@ != "BUILD_RUST_CHANNEL"@,
        "PKG_DESCRIPTION"@ != "PROJECT_NAME"@,
        "PKG_VERSION_MAJOR"@ != "PKG_VERSION_MINOR"@,
        "PKG_VERSION_MAJOR"@ != "PKG_VERSION_PATCH"@,
        "PKG_VERSION_MAJOR"@ != "PKG_VERSION_PRE"@,
        "PKG_VERSION_MAJOR"@ != "CARGO_MANIFEST_DIR"@,
        "PKG_VERSION_MAJOR"@ != "BUILD_TIME"@,
        "PKG_VERSION_MAJOR"@ != "BUILD_TIME_2822"@,
        "PKG_VERSION_MAJOR"@ != "BUILD_TIME_3339"@,
        "PKG_VERSION_MAJOR"@ != "BUILD_RUST_CHANNEL"@,
        "PKG_VERSION_MAJOR"@ != "PROJECT_NAME"@,
        "PKG_VERSION_MINOR"@ != "PKG_VERSION_PATCH"@,
        "PKG_VERSION_MINOR"@ != "PKG_VERSION_PRE"@,
        "PKG_VERSION_MINOR"@ != "CARGO_MANIFEST_DIR"@,
        "PKG_VERSION_MINOR"@ != "BUILD_TIME"@,
        "PKG_VERSION_MINOR"@ != "BUILD_TIME_2822"@,
        "PKG_VERSION_MINOR"@ != "BUILD_TIME_3339"@,
        "PKG_VERSION_MINOR"@ != "BUILD_RUST_CHANNEL"@,
        "PKG_VERSION_MINOR"@ != "PROJECT_NAME"@,
        "PKG_VERSION_PATCH"@ != "PKG_VERSION_PRE"@,
        "PKG_VERSION_PATCH"@ != "CARGO_MANIFEST_DIR"@,
        "PKG_VERSION_PATCH"@ != "BUILD_TIME"@,
        "PKG_VERSION_PATCH"@ != "BUILD_TIME_2822"@,
        "PKG_VERSION_PATCH"@ != "BUILD_TIME_3339"@,
        "PKG_VERSION_PATCH"@ != "BUILD_RUST_CHANNEL"@,
        "PKG_VERSION_PATCH"@ != "PROJECT_NAME"@,
        "PKG_VERSION_PRE"@ != "CARGO_MANIFEST_DIR"@,
        "PKG_VERSION_PRE"@ != "BUILD_TIME"@,
        "PKG_VERSION_PRE"@ != "BUILD_TIME_2822"@,
        "PKG_VERSION_PRE"@ != "BUILD_TIME_3339"@,
        "PKG_VERSION_PRE"@ != "BUILD_RUST_CHANNEL"@,
        "PKG_VERSION_PRE"@ != "PROJECT_NAME"@,
        "CARGO_MANIFEST_DIR"@ != "BUILD_TIME"@,
        "CARGO_MANIFEST_DIR"@ != "BUILD_TIME_2822"@,
        "CARGO_MANIFEST_DIR"@ != "BUILD_TIME_3339"@,
        "CARGO_MANIFEST_DIR"@ != "BUILD_RUST_CHANNEL"@,
        "CARGO_MANIFEST_DIR"@ != "PROJECT_NAME"@,
        "BUILD_TIME"@ != "BUILD_TIME_2822"@,
        "BUILD_TIME"@ != "BUILD_TIME_3339"@,
        "BUILD_TIME"@ != "BUILD_RUST_CHANNEL"@,
        "BUILD_TIME"@ != "PROJECT_NAME"@,
        "BUILD_TIME_2822"@ != "BUILD_TIME_3339"@,
        "BUILD_TIME_2822"@ != "BUILD_RUST_CHANNEL"@,
        "BUILD_TIME_2822"@ != "PROJECT_NAME"@,
        "BUILD_TIME_3339"@ != "BUILD_RUST_CHANNEL"@,
        "BUILD_TIME_3339"@ != "PROJECT_NAME"@,
        "BUILD_RUST_CHANNEL"@ != "PROJECT_NAME"@,
{
    reveal_strlit("BUILD_OS");
    reveal_strlit("RUST_CHANNEL");
    reveal_strlit("CARGO_METADATA");
    reveal_strlit("RUST_VERSION");
    reveal_strlit("CARGO_VERSION");
    reveal_strlit("CARGO_TREE");
    reveal_strlit("BUILD_TARGET");
    reveal_strlit("BUILD_TARGET_ARCH");
    reveal_strlit("PKG_VERSION");
    reveal_strlit("PKG_DESCRIPTION");
    reveal_strlit("PKG_VERSION_MAJOR");
    reveal_strlit("PKG_VERSION_MINOR");
    reveal_strlit("PKG_VERSION_PATCH");
    reveal_strlit("PKG_VERSION_PRE");
    reveal_strlit("CARGO_MANIFEST_DIR");
    reveal_strlit("BUILD_TIME");
    reveal_strlit("BUILD_TIME_2822");
    reveal_strlit("BUILD_TIME_3339");
    reveal_strlit("BUILD_RUST_CHANNEL");
    reveal_strlit("PROJECT_NAME");
    assert("BUILD_OS"@.len() == 8);
    assert("RUST_CHANNEL"@.len() == 12);
    assert("CARGO_METADATA"@.len() == 14);
    assert("RUST_VERSION"@.len() == 12);
    assert("CARGO_VERSION"@.len() == 13);
    assert("CARGO_TREE"@.len() == 10);
    assert("BUILD_TARGET"@.len() == 12);
    assert("BUILD_TARGET_ARCH"@.len() == 17);
    assert("PKG_VERSION"@.len() == 11);
    assert("PKG_DESCRIPTION"@.len() == 15);
    assert("PKG_VERSION_MAJOR"@.len() == 17);
    assert("PKG_VERSION_MINOR"@.len() == 17);
    assert("PKG_VERSION_PATCH"@.len() == 17);
    assert("PKG_VERSION_PRE"@.len() == 15);
    assert("CARGO_MANIFEST_DIR"@.len() == 18);
    assert("BUILD_TIME"@.len() == 10);
    assert("BUILD_TIME_2822"@.len() == 15);
    assert("BUILD_TIME_3339"@.len() == 15);
    assert("BUILD_RUST_CHANNEL"@.len() == 18);
    assert("PROJECT_NAME"@.len() == 12);
    assert("RUST_CHANNEL"@[5] == 'C');
    assert("RUST_VERSION"@[5] == 'V');
    assert("BUILD_TARGET"@[0] == 'B');
    assert("PROJECT_NAME"@[0] == 'P');
    assert("BUILD_TARGET_ARCH"@[0] == 'B');
    assert("PKG_VERSION_MAJOR"@[0] == 'P');
    assert("PKG_VERSION_MAJOR"@[12] == 'M');
    assert("PKG_VERSION_MINOR"@[12] == 'M');
    assert("PKG_VERSION_PATCH"@[12] == 'P');
    assert("PKG_VERSION_MAJOR"@[13] == 'A');
    assert("PKG_VERSION_MINOR"@[13] == 'I');
    assert("PKG_DESCRIPTION"@[4] == 'D');
    assert("PKG_VERSION_PRE"@[4] == 'V');
    assert("BUILD_TIME_2822"@[0] == 'B');
    assert("CARGO_TREE"@[0] == 'C');
    assert("BUILD_TIME"@[0] == 'B');
    assert("CARGO_MANIFEST_DIR"@[0] == 'C');
    assert("BUILD_RUST_CHANNEL"@[0] == 'B');
    assert("BUILD_TIME_2822"@[11] == '2');
    assert("BUILD_TIME_3339"@[11] == '3');
}

/// The outputs of the toolchain queries a resolution run consumes, as
/// the adapter captured them.
#[derive(Debug, Clone)]
pub struct ToolOutputs {
    pub rust_version: Option<String>,
    pub cargo_version: Option<String>,
    /// The raw dependency-tree listing, before redaction.
    pub cargo_tree: Option<String>,
    pub cargo_metadata: Option<String>,
}

/// The value a kind-preserving update writes over `t` at key `k`.
pub open spec fn upd_keep(t: Seq<FactView>, v: Seq<char>, k: Seq<char>) -> Option<ConstValView> {
    match val_of(t, k) {
        Some(f) => Some(ConstValView { desc: f.desc, v: v, t: f.t }),
        None => None,
    }
}

/// What the dependency-tree fact is set to: everything after the first
/// newline of the raw listing, split into lines, each line redacted,
/// and the lines rejoined.
pub open spec fn tree_fact_resolved(
    old_t: Seq<FactView>,
    new_t: Seq<FactView>,
    raw: Seq<char>,
) -> bool {
    match find_seq(raw, "\n"@) {
        Some(p) => exists|vals: Seq<Seq<char>>|
            {
                let lines = split_nl(raw.subrange(p, raw.len() as int));
                &&& vals.len() == lines.len()
                &&& (forall|i: int|
                    0 <= i < vals.len() ==> redact_ok(lines[i], #[trigger] vals[i]))
                &&& val_of(new_t, "CARGO_TREE"@) == upd_keep(old_t, #[trigger] tree_fold(vals), "CARGO_TREE"@)
            },
        None => val_of(new_t, "CARGO_TREE"@) == val_of(old_t, "CARGO_TREE"@),
    }
}

/// What the variable lookups of the snapshot do to the table: each
/// fact takes its variable's value when the variable is set, keeping
/// its declared kind.
pub open spec fn var_facts_applied(
    old_t: Seq<FactView>,
    new_t: Seq<FactView>,
    env: Seq<crate::fact::EnvEntryView>,
) -> bool {
    &&& new_t.len() == old_t.len()
    &&& (forall|j: int| 0 <= j < old_t.len() ==> (#[trigger] new_t[j].key) == old_t[j].key)
    &&& (distinct_keys(old_t) ==> distinct_keys(new_t))
    &&& (env_val(env, "RUSTUP_TOOLCHAIN"@) matches Some(v) ==> val_of(new_t, "RUST_CHANNEL"@)
        == upd_keep(old_t, v, "RUST_CHANNEL"@))
    &&& (env_val(env, "RUSTUP_TOOLCHAIN"@) is None ==> val_of(new_t, "RUST_CHANNEL"@) == val_of(
        old_t,
        "RUST_CHANNEL"@,
    ))
    &&& (env_val(env, "TARGET"@) matches Some(v) ==> val_of(new_t, "BUILD_TARGET"@)
        == upd_keep(old_t, v, "BUILD_TARGET"@))
    &&& (env_val(env, "TARGET"@) is None ==> val_of(new_t, "BUILD_TARGET"@) == val_of(
        old_t,
        "BUILD_TARGET"@,
    ))
    &&& (env_val(env, "CARGO_CFG_TARGET_ARCH"@) matches Some(v) ==> val_of(new_t, "BUILD_TARGET_ARCH"@)
        == upd_keep(old_t, v, "BUILD_TARGET_ARCH"@))
    &&& (env_val(env, "CARGO_CFG_TARGET_ARCH"@) is None ==> val_of(new_t, "BUILD_TARGET_ARCH"@) == val_of(
        old_t,
        "BUILD_TARGET_ARCH"@,
    ))
    &&& (env_val(env, "CARGO_PKG_VERSION"@) matches Some(v) ==> val_of(new_t, "PKG_VERSION"@)
        == upd_keep(old_t, v, "PKG_VERSION"@))
    &&& (env_val(env, "CARGO_PKG_VERSION"@) is None ==> val_of(new_t, "PKG_VERSION"@) == val_of(
        old_t,
        "PKG_VERSION"@,
    ))
    &&& (env_val(env, "CARGO_PKG_DESCRIPTION"@) matches Some(v) ==> val_of(new_t, "PKG_DESCRIPTION"@)
        == upd_keep(old_t, v, "PKG_DESCRIPTION"@))
    &&& (env_val(env, "CARGO_PKG_DESCRIPTION"@) is None ==> val_of(new_t, "PKG_DESCRIPTION"@) == val_of(
        old_t,
        "PKG_DESCRIPTION"@,
    ))
    &&& (env_val(env, "CARGO_PKG_VERSION_MAJOR"@) matches Some(v) ==> val_of(new_t, "PKG_VERSION_MAJOR"@)
        == upd_keep(old_t, v, "PKG_VERSION_MAJOR"@))
    &&& (env_val(env, "CARGO_PKG_VERSION_MAJOR"@) is None ==> val_of(new_t, "PKG_VERSION_MAJOR"@) == val_of(
        old_t,
        "PKG_VERSION_MAJOR"@,
    ))
    &&& (env_val(env, "CARGO_PKG_VERSION_MINOR"@) matches Some(v) ==> val_of(new_t, "PKG_VERSION_MINOR"@)
        == upd_keep(old_t, v, "PKG_VERSION_MINOR"@))
    &&& (env_val(env, "CARGO_PKG_VERSION_MINOR"@) is None ==> val_of(new_t, "PKG_VERSION_MINOR"@) == val_of(
        old_t,
        "PKG_VERSION_MINOR"@,
    ))
    &&& (env_val(env, "CARGO_PKG_VERSION_PATCH"@) matches Some(v) ==> val_of(new_t, "PKG_VERSION_PATCH"@)
        == upd_keep(old_t, v, "PKG_VERSION_PATCH"@))
    &&& (env_val(env, "CARGO_PKG_VERSION_PATCH"@) is None ==> val_of(new_t, "PKG_VERSION_PATCH"@) == val_of(
        old_t,
        "PKG_VERSION_PATCH"@,
    ))
    &&& (env_val(env, "CARGO_PKG_VERSION_PRE"@) matches Some(v) ==> val_of(new_t, "PKG_VERSION_PRE"@)
        == upd_keep(old_t, v, "PKG_VERSION_PRE"@))
    &&& (env_val(env, "CARGO_PKG_VERSION_PRE"@) is None ==> val_of(new_t, "PKG_VERSION_PRE"@) == val_of(
        old_t,
        "PKG_VERSION_PRE"@,
    ))
    &&& (env_val(env, "CARGO_MANIFEST_DIR"@) matches Some(v) ==> val_of(new_t, "CARGO_MANIFEST_DIR"@)
        == upd_keep(old_t, v, "CARGO_MANIFEST_DIR"@))
    &&& (env_val(env, "CARGO_MANIFEST_DIR"@) is None ==> val_of(new_t, "CARGO_MANIFEST_DIR"@) == val_of(
        old_t,
        "CARGO_MANIFEST_DIR"@,
    ))
    &&& forall|k2: Seq<char>| (k2 != "RUST_CHANNEL"@ && k2 != "BUILD_TARGET"@ && k2 != "BUILD_TARGET_ARCH"@ && k2 != "PKG_VERSION"@ && k2 != "PKG_DESCRIPTION"@ && k2 != "PKG_VERSION_MAJOR"@ && k2 != "PKG_VERSION_MINOR"@ && k2 != "PKG_VERSION_PATCH"@ && k2 != "PKG_VERSION_PRE"@ && k2 != "CARGO_MANIFEST_DIR"@) ==> #[trigger] val_of(new_t, k2) == val_of(old_t, k2)
}

/// What the toolchain outputs do to the table: the version strings are
/// stored trimmed, and the dependency tree is redacted line by line.
pub open spec fn tool_facts_applied(
    old_t: Seq<FactView>,
    new_t: Seq<FactView>,
    tools: ToolOutputs,
) -> bool {
    &&& new_t.len() == old_t.len()
    &&& (forall|j: int| 0 <= j < old_t.len() ==> (#[trigger] new_t[j].key) == old_t[j].key)
    &&& (distinct_keys(old_t) ==> distinct_keys(new_t))
    &&& (tools.rust_version matches Some(s) ==> val_of(new_t, "RUST_VERSION"@) == upd_keep(
        old_t,
        trim_spaces(s@),
        "RUST_VERSION"@,
    ))
    &&& (tools.rust_version is None ==> val_of(new_t, "RUST_VERSION"@) == val_of(old_t, "RUST_VERSION"@))
    &&& (tools.cargo_version matches Some(s) ==> val_of(new_t, "CARGO_VERSION"@) == upd_keep(
        old_t,
        trim_spaces(s@),
        "CARGO_VERSION"@,
    ))
    &&& (tools.cargo_version is None ==> val_of(new_t, "CARGO_VERSION"@) == val_of(old_t, "CARGO_VERSION"@))
    &&& (tools.cargo_metadata matches Some(s) ==> val_of(new_t, "CARGO_METADATA"@) == upd_keep(
        old_t,
        trim_spaces(s@),
        "CARGO_METADATA"@,
    ))
    &&& (tools.cargo_metadata is None ==> val_of(new_t, "CARGO_METADATA"@) == val_of(old_t, "CARGO_METADATA"@))
    &&& (tools.cargo_tree matches Some(raw) ==> tree_fact_resolved(old_t, new_t, raw@))
    &&& (tools.cargo_tree is None ==> val_of(new_t, "CARGO_TREE"@) == val_of(
        old_t,
        "CARGO_TREE"@,
    ))
    &&& forall|k2: Seq<char>|
        (k2 != "RUST_VERSION"@ && k2 != "CARGO_VERSION"@ && k2 != "CARGO_METADATA"@ && k2
            != "CARGO_TREE"@) ==> #[trigger] val_of(new_t, k2) == val_of(old_t, k2)
}

/// The variable-derived fact keys are pairwise distinct.
proof fn lemma_var_keys_distinct()
    ensures
        "RUST_CHANNEL"@ != "BUILD_TARGET"@,
        "RUST_CHANNEL"@ != "BUILD_TARGET_ARCH"@,
        "RUST_CHANNEL"@ != "PKG_VERSION"@,
        "RUST_CHANNEL"@ != "PKG_DESCRIPTION"@,
        "RUST_CHANNEL"@ != "PKG_VERSION_MAJOR"@,
        "RUST_CHANNEL"@ != "PKG_VERSION_MINOR"@,
        "RUST_CHANNEL"@ != "PKG_VERSION_PATCH"@,
        "RUST_CHANNEL"@ != "PKG_VERSION_PRE"@,
        "RUST_CHANNEL"@ != "CARGO_MANIFEST_DIR"@,
        "BUILD_TARGET"@ != "BUILD_TARGET_ARCH"@,
        "BUILD_TARGET"@ != "PKG_VERSION"@,
        "BUILD_TARGET"@ != "PKG_DESCRIPTION"@,
        "BUILD_TARGET"@ != "PKG_VERSION_MAJOR"@,
        "BUILD_TARGET"@ != "PKG_VERSION_MINOR"@,
        "BUILD_TARGET"@ != "PKG_VERSION_PATCH"@,
        "BUILD_TARGET"@ != "PKG_VERSION_PRE"@,
        "BUILD_TARGET"@ != "CARGO_MANIFEST_DIR"@,
        "BUILD_TARGET_ARCH"@ != "PKG_VERSION"@,
        "BUILD_TARGET_ARCH"@ != "PKG_DESCRIPTION"@,
        "BUILD_TARGET_ARCH"@ != "PKG_VERSION_MAJOR"@,
        "BUILD_TARGET_ARCH"@ != "PKG_VERSION_MINOR"@,
        "BUILD_TARGET_ARCH"@ != "PKG_VERSION_PATCH"@,
        "BUILD_TARGET_ARCH"@ != "PKG_VERSION_PRE"@,
        "BUILD_TARGET_ARCH"@ != "CARGO_MANIFEST_DIR"@,
        "PKG_VERSION"@ != "PKG_DESCRIPTION"@,
        "PKG_VERSION"@ != "PKG_VERSION_MAJOR"@,
        "PKG_VERSION"@ != "PKG_VERSION_MINOR"@,
        "PKG_VERSION"@ != "PKG_VERSION_PATCH"@,
        "PKG_VERSION"@ != "PKG_VERSION_PRE"@,
        "PKG_VERSION"@ != "CARGO_MANIFEST_DIR"@,
        "PKG_DESCRIPTION"@ != "PKG_VERSION_MAJOR"@,
        "PKG_DESCRIPTION"@ != "PKG_VERSION_MINOR"@,
        "PKG_DESCRIPTION"@ != "PKG_VERSION_PATCH"@,
        "PKG_DESCRIPTION"@ != "PKG_VERSION_PRE"@,
        "PKG_DESCRIPTION"@ != "CARGO_MANIFEST_DIR"@,
        "PKG_VERSION_MAJOR"@ != "PKG_VERSION_MINOR"@,
        "PKG_VERSION_MAJOR"@ != "PKG_VERSION_PATCH"@,
        "PKG_VERSION_MAJOR"@ != "PKG_VERSION_PRE"@,
        "PKG_VERSION_MAJOR"@ != "CARGO_MANIFEST_DIR"@,
        "PKG_VERSION_MINOR"@ != "PKG_VERSION_PATCH"@,
        "PKG_VERSION_MINOR"@ != "PKG_VERSION_PRE"@,
        "PKG_VERSION_MINOR"@ != "CARGO_MANIFEST_DIR"@,
        "PKG_VERSION_PATCH"@ != "PKG_VERSION_PRE"@,
        "PKG_VERSION_PATCH"@ != "CARGO_MANIFEST_DIR"@,
        "PKG_VERSION_PRE"@ != "CARGO_MANIFEST_DIR"@,
{
    reveal_strlit("RUST_CHANNEL");
    reveal_strlit("BUILD_TARGET");
    reveal_strlit("BUILD_TARGET_ARCH");
    reveal_strlit("PKG_VERSION");
    reveal_strlit("PKG_DESCRIPTION");
    reveal_strlit("PKG_VERSION_MAJOR");
    reveal_strlit("PKG_VERSION_MINOR");
    reveal_strlit("PKG_VERSION_PATCH");
    reveal_strlit("PKG_VERSION_PRE");
    reveal_strlit("CARGO_MANIFEST_DIR");
    assert("RUST_CHANNEL"@.len() == 12);
    assert("BUILD_TARGET"@.len() == 12);
    assert("BUILD_TARGET_ARCH"@.len() == 17);
    assert("PKG_VERSION"@.len() == 11);
    assert("PKG_DESCRIPTION"@.len() == 15);
    assert("PKG_VERSION_MAJOR"@.len() == 17);
    assert("PKG_VERSION_MINOR"@.len() == 17);
    assert("PKG_VERSION_PATCH"@.len() == 17);
    assert("PKG_VERSION_PRE"@.len() == 15);
    assert("CARGO_MANIFEST_DIR"@.len() == 18);
    assert("RUST_CHANNEL"@[0] == 'R');
    assert("BUILD_TARGET"@[0] == 'B');
    assert("BUILD_TARGET_ARCH"@[0] == 'B');
    assert("PKG_VERSION_MAJOR"@[0] == 'P');
    assert("PKG_VERSION_MAJOR"@[13] == 'A');
    assert("PKG_VERSION_MINOR"@[13] == 'I');
    assert("PKG_VERSION_PATCH"@[12] == 'P');
    assert("PKG_VERSION_MAJOR"@[12] == 'M');
    assert("PKG_VERSION_MINOR"@[12] == 'M');
    assert("PKG_DESCRIPTION"@[4] == 'D');
    assert("PKG_VERSION_PRE"@[4] == 'V');
}

/// One half of the variable lookups, applied.
pub open spec fn var_a_applied(
    old_t: Seq<FactView>,
    new_t: Seq<FactView>,
    env: Seq<crate::fact::EnvEntryView>,
) -> bool {
    &&& new_t.len() == old_t.len()
    &&& (forall|j: int| 0 <= j < old_t.len() ==> (#[trigger] new_t[j].key) == old_t[j].key)
    &&& (distinct_keys(old_t) ==> distinct_keys(new_t))
    &&& (env_val(env, "RUSTUP_TOOLCHAIN"@) matches Some(v) ==> val_of(new_t, "RUST_CHANNEL"@)
        == upd_keep(old_t, v, "RUST_CHANNEL"@))
    &&& (env_val(env, "RUSTUP_TOOLCHAIN"@) is None ==> val_of(new_t, "RUST_CHANNEL"@) == val_of(
        old_t,
        "RUST_CHANNEL"@,
    ))
    &&& (env_val(env, "TARGET"@) matches Some(v) ==> val_of(new_t, "BUILD_TARGET"@)
        == upd_keep(old_t, v, "BUILD_TARGET"@))
    &&& (env_val(env, "TARGET"@) is None ==> val_of(new_t, "BUILD_TARGET"@) == val_of(
        old_t,
        "BUILD_TARGET"@,
    ))
    &&& (env_val(env, "CARGO_CFG_TARGET_ARCH"@) matches Some(v) ==> val_of(new_t, "BUILD_TARGET_ARCH"@)
        == upd_keep(old_t, v, "BUILD_TARGET_ARCH"@))
    &&& (env_val(env, "CARGO_CFG_TARGET_ARCH"@) is None ==> val_of(new_t, "BUILD_TARGET_ARCH"@) == val_of(
        old_t,
        "BUILD_TARGET_ARCH"@,
    ))
    &&& (env_val(env, "CARGO_PKG_VERSION"@) matches Some(v) ==> val_of(new_t, "PKG_VERSION"@)
        == upd_keep(old_t, v, "PKG_VERSION"@))
    &&& (env_val(env, "CARGO_PKG_VERSION"@) is None ==> val_of(new_t, "PKG_VERSION"@) == val_of(
        old_t,
        "PKG_VERSION"@,
    ))
    &&& (env_val(env, "CARGO_PKG_DESCRIPTION"@) matches Some(v) ==> val_of(new_t, "PKG_DESCRIPTION"@)
        == upd_keep(old_t, v, "PKG_DESCRIPTION"@))
    &&& (env_val(env, "CARGO_PKG_DESCRIPTION"@) is None ==> val_of(new_t, "PKG_DESCRIPTION"@) == val_of(
        old_t,
        "PKG_DESCRIPTION"@,
    ))
    &&& forall|k2: Seq<char>| (k2 != "RUST_CHANNEL"@ && k2 != "BUILD_TARGET"@ && k2 != "BUILD_TARGET_ARCH"@ && k2 != "PKG_VERSION"@ && k2 != "PKG_DESCRIPTION"@) ==> #[trigger] val_of(new_t, k2) == val_of(old_t, k2)
}

/// One half of the variable lookups, applied.
pub open spec fn var_b_applied(
    old_t: Seq<FactView>,
    new_t: Seq<FactView>,
    env: Seq<crate::fact::EnvEntryView>,
) -> bool {
    &&& new_t.len() == old_t.len()
    &&& (forall|j: int| 0 <= j < old_t.len() ==> (#[trigger] new_t[j].key) == old_t[j].key)
    &&& (distinct_keys(old_t) ==> distinct_keys(new_t))
    &&& (env_val(env, "CARGO_PKG_VERSION_MAJOR"@) matches Some(v) ==> val_of(new_t, "PKG_VERSION_MAJOR"@)
        == upd_keep(old_t, v, "PKG_VERSION_MAJOR"@))
    &&& (env_val(env, "CARGO_PKG_VERSION_MAJOR"@) is None ==> val_of(new_t, "PKG_VERSION_MAJOR"@) == val_of(
        old_t,
        "PKG_VERSION_MAJOR"@,
    ))
    &&& (env_val(env, "CARGO_PKG_VERSION_MINOR"@) matches Some(v) ==> val_of(new_t, "PKG_VERSION_MINOR"@)
        == upd_keep(old_t, v, "PKG_VERSION_MINOR"@))
    &&& (env_val(env, "CARGO_PKG_VERSION_MINOR"@) is None ==> val_of(new_t, "PKG_VERSION_MINOR"@) == val_of(
        old_t,
        "PKG_VERSION_MINOR"@,
    ))
    &&& (env_val(env, "CARGO_PKG_VERSION_PATCH"@) matches Some(v) ==> val_of(new_t, "PKG_VERSION_PATCH"@)
        == upd_keep(old_t, v, "PKG_VERSION_PATCH"@))
    &&& (env_val(env, "CARGO_PKG_VERSION_PATCH"@) is None ==> val_of(new_t, "PKG_VERSION_PATCH"@) == val_of(
        old_t,
        "PKG_VERSION_PATCH"@,
    ))
    &&& (env_val(env, "CARGO_PKG_VERSION_PRE"@) matches Some(v) ==> val_of(new_t, "PKG_VERSION_PRE"@)
        == upd_keep(old_t, v, "PKG_VERSION_PRE"@))
    &&& (env_val(env, "CARGO_PKG_VERSION_PRE"@) is None ==> val_of(new_t, "PKG_VERSION_PRE"@) == val_of(
        old_t,
        "PKG_VERSION_PRE"@,
    ))
    &&& (env_val(env, "CARGO_MANIFEST_DIR"@) matches Some(v) ==> val_of(new_t, "CARGO_MANIFEST_DIR"@)
        == upd_keep(old_t, v, "CARGO_MANIFEST_DIR"@))
    &&& (env_val(env, "CARGO_MANIFEST_DIR"@) is None ==> val_of(new_t, "CARGO_MANIFEST_DIR"@) == val_of(
        old_t,
        "CARGO_MANIFEST_DIR"@,
    ))
    &&& forall|k2: Seq<char>| (k2 != "PKG_VERSION_MAJOR"@ && k2 != "PKG_VERSION_MINOR"@ && k2 != "PKG_VERSION_PATCH"@ && k2 != "PKG_VERSION_PRE"@ && k2 != "CARGO_MANIFEST_DIR"@) ==> #[trigger] val_of(new_t, k2) == val_of(old_t, k2)
}

/// The environment-derived facts of one resolution run.
#[derive(Debug, Clone)]
pub struct SystemEnv {
    pub map: FactTable,
}

impl SystemEnv {
    /// Apply the toolchain outputs.
    #[verifier::rlimit(100)]
    fn apply_tool_facts(&mut self, tools: &ToolOutputs)
        ensures
            tool_facts_applied(old(self).map@, final(self).map@, *tools),
    {
        proof {
            lemma_env_key_literals_distinct();
        }
        match &tools.rust_version {
            Some(s) => {
                self.map.update_value("RUST_VERSION", trim_string(s.as_str()));
            },
            None => {},
        }
        match &tools.cargo_version {
            Some(s) => {
                self.map.update_value("CARGO_VERSION", trim_string(s.as_str()));
            },
            None => {},
        }
        match &tools.cargo_tree {
            Some(raw) => {
                let chars = str_to_chars(raw.as_str());
                match find_in(&chars, "\n") {
                    Some(p) => {
                        let n: usize = chars.len();
                        proof {
                            lemma_find_seq_exact(raw@, "\n"@);
                            reveal_strlit("\n");
                        }
                        let suffix = chars_to_string(&slice_chars(&chars, p, n));
                        let parts = split_newlines(suffix.as_str());
                        let mut lines: Vec<&str> = Vec::new();
                        let m: usize = parts.len();
                        let mut i: usize = 0;
                        while i < m
                            invariant
                                i <= m,
                                m == parts@.len(),
                                lines@.len() == i,
                                forall|j: int|
                                    0 <= j < i ==> (#[trigger] lines@[j])@ == parts@[j]@,
                            decreases m - i,
                        {
                            lines.push(parts[i].as_str());
                            i = i + 1;
                        }
                        let tree = filter_cargo_tree(lines);
                        self.map.update_value("CARGO_TREE", tree);
                        proof {
                            assert(lines@.map_values(|x: &str| x@) =~= parts@.map_values(
                                |x: String| x@,
                            ));
                            assert(lines@.map_values(|x: &str| x@) =~= split_nl(
                                raw@.subrange(p as int, raw@.len() as int),
                            ));
                        }
                    },
                    None => {},
                }
            },
            None => {},
        }
        match &tools.cargo_metadata {
            Some(s) => {
                self.map.update_value("CARGO_METADATA", trim_string(s.as_str()));
            },
            None => {},
        }
    }

    /// Apply the first half of the variable lookups.
    #[verifier::rlimit(100)]
    fn apply_var_facts_a(&mut self, std_env: &EnvSnapshot)
        ensures
            var_a_applied(old(self).map@, final(self).map@, std_env@),
    {
        proof {
            lemma_var_keys_distinct();
        }
        match std_env.get("RUSTUP_TOOLCHAIN") {
            Some(v) => {
                self.map.update_value("RUST_CHANNEL", v);
            },
            None => {},
        }
        match std_env.get("TARGET") {
            Some(v) => {
                self.map.update_value("BUILD_TARGET", v);
            },
            None => {},
        }
        match std_env.get("CARGO_CFG_TARGET_ARCH") {
            Some(v) => {
                self.map.update_value("BUILD_TARGET_ARCH", v);
            },
            None => {},
        }
        match std_env.get("CARGO_PKG_VERSION") {
            Some(v) => {
                self.map.update_value("PKG_VERSION", v);
            },
            None => {},
        }
        match std_env.get("CARGO_PKG_DESCRIPTION") {
            Some(v) => {
                self.map.update_value("PKG_DESCRIPTION", v);
            },
            None => {},
        }
    }

    /// Apply the second half of the variable lookups.
    #[verifier::rlimit(100)]
    fn apply_var_facts_b(&mut self, std_env: &EnvSnapshot)
        ensures
            var_b_applied(old(self).map@, final(self).map@, std_env@),
    {
        proof {
            lemma_var_keys_distinct();
        }
        match std_env.get("CARGO_PKG_VERSION_MAJOR") {
            Some(v) => {
                self.map.update_value("PKG_VERSION_MAJOR", v);
            },
            None => {},
        }
        match std_env.get("CARGO_PKG_VERSION_MINOR") {
            Some(v) => {
                self.map.update_value("PKG_VERSION_MINOR", v);
            },
            None => {},
        }
        match std_env.get("CARGO_PKG_VERSION_PATCH") {
            Some(v) => {
                self.map.update_value("PKG_VERSION_PATCH", v);
            },
            None => {},
        }
        match std_env.get("CARGO_PKG_VERSION_PRE") {
            Some(v) => {
                self.map.update_value("PKG_VERSION_PRE", v);
            },
            None => {},
        }
        match std_env.get("CARGO_MANIFEST_DIR") {
            Some(v) => {
                self.map.update_value("CARGO_MANIFEST_DIR", v);
            },
            None => {},
        }
    }

    /// Apply the variable lookups of the snapshot.
    #[verifier::rlimit(100)]
    fn apply_var_facts(&mut self, std_env: &EnvSnapshot)
        ensures
            var_facts_applied(old(self).map@, final(self).map@, std_env@),
    {
        proof {
            lemma_var_keys_distinct();
        }
        self.apply_var_facts_a(std_env);
        self.apply_var_facts_b(std_env);
    }

    /// Apply the environment snapshot and the toolchain outputs to the
    /// table: each fact takes the source's value, keeping its declared
    /// kind, and the dependency tree is redacted line by line before it
    /// is stored.
    pub fn init(&mut self, std_env: &EnvSnapshot, tools: &ToolOutputs)
        ensures
            exists|mid: Seq<FactView>|
                {
                    &&& #[trigger] tool_facts_applied(old(self).map@, mid, *tools)
                    &&& var_facts_applied(mid, final(self).map@, std_env@)
                },
    {
        let ghost t0 = self.map@;
        self.apply_tool_facts(tools);
        let ghost t1 = self.map@;
        self.apply_var_facts(std_env);
        proof {
            assert(tool_facts_applied(t0, t1, *tools));
            assert(var_facts_applied(t1, self.map@, std_env@));
        }
    }
}

} // verus!

verus! {

/// The environment fact table of one run: fifteen facts with their
/// fixed documentation, resolved from the snapshot `env`, the
/// toolchain outputs and the platform name `os`.
pub open spec fn system_env_table(
    t: Seq<FactView>,
    env: Seq<crate::fact::EnvEntryView>,
    tools: ToolOutputs,
    os: Seq<char>,
) -> bool {
    &&& (distinct_keys(t))
    &&& (t.len() == 15)
    &&& (val_of(t, "BUILD_OS"@) matches Some(f) && f.v == os && f.desc == BUILD_OS_DOC@)
    &&& ((env_val(env, "RUSTUP_TOOLCHAIN"@) matches Some(v) ==> (val_of(t, "RUST_CHANNEL"@)
            matches Some(f) && f.v == v && f.desc == RUST_CHANNEL_DOC@)))
    &&& ((env_val(env, "RUSTUP_TOOLCHAIN"@) is None ==> (val_of(t, "RUST_CHANNEL"@) matches Some(f)
            && f.v == Seq::<char>::empty() && f.desc == RUST_CHANNEL_DOC@)))
    &&& ((env_val(env, "TARGET"@) matches Some(v) ==> (val_of(t, "BUILD_TARGET"@)
            matches Some(f) && f.v == v && f.desc == BUILD_TARGET_DOC@)))
    &&& ((env_val(env, "TARGET"@) is None ==> (val_of(t, "BUILD_TARGET"@) matches Some(f)
            && f.v == Seq::<char>::empty() && f.desc == BUILD_TARGET_DOC@)))
    &&& ((env_val(env, "CARGO_CFG_TARGET_ARCH"@) matches Some(v) ==> (val_of(t, "BUILD_TARGET_ARCH"@)
            matches Some(f) && f.v == v && f.desc == BUILD_TARGET_ARCH_DOC@)))
    &&& ((env_val(env, "CARGO_CFG_TARGET_ARCH"@) is None ==> (val_of(t, "BUILD_TARGET_ARCH"@) matches Some(f)
            && f.v == Seq::<char>::empty() && f.desc == BUILD_TARGET_ARCH_DOC@)))
    &&& ((env_val(env, "CARGO_PKG_VERSION"@) matches Some(v) ==> (val_of(t, "PKG_VERSION"@)
            matches Some(f) && f.v == v && f.desc == PKG_VERSION_DOC@)))
    &&& ((env_val(env, "CARGO_PKG_VERSION"@) is None ==> (val_of(t, "PKG_VERSION"@) matches Some(f)
            && f.v == Seq::<char>::empty() && f.desc == PKG_VERSION_DOC@)))
    &&& ((env_val(env, "CARGO_PKG_DESCRIPTION"@) matches Some(v) ==> (val_of(t, "PKG_DESCRIPTION"@)
            matches Some(f) && f.v == v && f.desc == PKG_DESCRIPTION_DOC@)))
    &&& ((env_val(env, "CARGO_PKG_DESCRIPTION"@) is None ==> (val_of(t, "PKG_DESCRIPTION"@) matches Some(f)
            && f.v == Seq::<char>::empty() && f.desc == PKG_DESCRIPTION_DOC@)))
    &&& ((env_val(env, "CARGO_PKG_VERSION_MAJOR"@) matches Some(v) ==> (val_of(t, "PKG_VERSION_MAJOR"@)
            matches Some(f) && f.v == v && f.desc == PKG_VERSION_MAJOR_DOC@)))
    &&& ((env_val(env, "CARGO_PKG_VERSION_MAJOR"@) is None ==> (val_of(t, "PKG_VERSION_MAJOR"@) matches Some(f)
            && f.v == Seq::<char>::empty() && f.desc == PKG_VERSION_MAJOR_DOC@)))
    &&& ((env_val(env, "CARGO_PKG_VERSION_MINOR"@) matches Some(v) ==> (val_of(t, "PKG_VERSION_MINOR"@)
            matches Some(f) && f.v == v && f.desc == PKG_VERSION_MINOR_DOC@)))
    &&& ((env_val(env, "CARGO_PKG_VERSION_MINOR"@) is None ==> (val_of(t, "PKG_VERSION_MINOR"@) matches Some(f)
            && f.v == Seq::<char>::empty() && f.desc == PKG_VERSION_MINOR_DOC@)))
    &&& ((env_val(env, "CARGO_PKG_VERSION_PATCH"@) matches Some(v) ==> (val_of(t, "PKG_VERSION_PATCH"@)
            matches Some(f) && f.v == v && f.desc == PKG_VERSION_PATCH_DOC@)))
    &&& ((env_val(env, "CARGO_PKG_VERSION_PATCH"@) is None ==> (val_of(t, "PKG_VERSION_PATCH"@) matches Some(f)
            && f.v == Seq::<char>::empty() && f.desc == PKG_VERSION_PATCH_DOC@)))
    &&& ((env_val(env, "CARGO_PKG_VERSION_PRE"@) matches Some(v) ==> (val_of(t, "PKG_VERSION_PRE"@)
            matches Some(f) && f.v == v && f.desc == PKG_VERSION_PRE_DOC@)))
    &&& ((env_val(env, "CARGO_PKG_VERSION_PRE"@) is None ==> (val_of(t, "PKG_VERSION_PRE"@) matches Some(f)
            && f.v == Seq::<char>::empty() && f.desc == PKG_VERSION_PRE_DOC@)))
    &&& ((env_val(env, "CARGO_MANIFEST_DIR"@) matches Some(v) ==> (val_of(t, "CARGO_MANIFEST_DIR"@)
            matches Some(f) && f.v == v && f.desc == CARGO_MANIFEST_DIR_DOC@)))
    &&& ((env_val(env, "CARGO_MANIFEST_DIR"@) is None ==> (val_of(t, "CARGO_MANIFEST_DIR"@) matches Some(f)
            && f.v == Seq::<char>::empty() && f.desc == CARGO_MANIFEST_DIR_DOC@)))
    &&& ((tools.rust_version matches Some(s) ==> (val_of(t, "RUST_VERSION"@) matches Some(f)
            && f.v == trim_spaces(s@) && f.desc == RUST_VERSION_DOC@)))
    &&& ((tools.rust_version is None ==> (val_of(t, "RUST_VERSION"@) matches Some(f) && f.v
            == Seq::<char>::empty() && f.desc == RUST_VERSION_DOC@)))
    &&& ((tools.cargo_version matches Some(s) ==> (val_of(t, "CARGO_VERSION"@) matches Some(f)
            && f.v == trim_spaces(s@) && f.desc == CARGO_VERSION_DOC@)))
    &&& ((tools.cargo_version is None ==> (val_of(t, "CARGO_VERSION"@) matches Some(f) && f.v
            == Seq::<char>::empty() && f.desc == CARGO_VERSION_DOC@)))
    &&& ((tools.cargo_metadata matches Some(s) ==> (val_of(t, "CARGO_METADATA"@) matches Some(f)
            && f.v == trim_spaces(s@) && f.desc == CARGO_METADATA_DOC@)))
    &&& ((tools.cargo_metadata is None ==> (val_of(t, "CARGO_METADATA"@) matches Some(f) && f.v
            == Seq::<char>::empty() && f.desc == CARGO_METADATA_DOC@)))
    &&& ((tools.cargo_tree is None ==> (val_of(t, "CARGO_TREE"@) matches Some(f) && f.v
            == Seq::<char>::empty() && f.desc == CARGO_TREE_DOC@)))
    &&& ((tools.cargo_tree matches Some(raw) ==> match find_seq(raw@, "\n"@) {
            Some(p) => exists|vals: Seq<Seq<char>>|
                {
                    let lines = split_nl(raw@.subrange(p, raw@.len() as int));
                    &&& vals.len() == lines.len()
                    &&& (forall|i: int|
                        0 <= i < vals.len() ==> redact_ok(lines[i], #[trigger] vals[i]))
                    &&& (val_of(t, "CARGO_TREE"@) matches Some(f) && f.v == #[trigger] tree_fold(
                        vals,
                    ) && f.desc == CARGO_TREE_DOC@)
                },
            None => val_of(t, "CARGO_TREE"@) matches Some(f) && f.v == Seq::<char>::empty()
                && f.desc == CARGO_TREE_DOC@,
        }))
}

/// Create the environment-derived facts: fifteen facts with their
/// fixed documentation, filled from the snapshot and the toolchain
/// outputs. The operating-system fact takes the value the caller read
/// from the platform constants.
#[verifier::rlimit(100)]
pub fn new_system_env(std_env: &EnvSnapshot, tools: &ToolOutputs, build_os: String) -> (r:
    FactTable)
    ensures
        system_env_table(r@, std_env@, *tools, build_os@),
{
    proof {
        lemma_env_key_literals_distinct();
    }
    let mut env = SystemEnv { map: new_system_table(build_os) };
    let ghost base = env.map@;
    env.apply_tool_facts(tools);
    let ghost mid = env.map@;
    env.apply_var_facts(std_env);
    proof {
        match &tools.cargo_tree {
            Some(raw) => {
                match find_seq(raw@, "\n"@) {
                    Some(p) => {
                        let lines = split_nl(raw@.subrange(p, raw@.len() as int));
                        let vals = choose|vals: Seq<Seq<char>>|
                            {
                                &&& vals.len() == lines.len()
                                &&& (forall|i: int|
                                    0 <= i < vals.len() ==> redact_ok(
                                        lines[i],
                                        #[trigger] vals[i],
                                    ))
                                &&& val_of(mid, "CARGO_TREE"@) == upd_keep(
                                    base,
                                    #[trigger] tree_fold(vals),
                                    "CARGO_TREE"@,
                                )
                            };
                        assert(val_of(env.map@, "CARGO_TREE"@) == val_of(mid, "CARGO_TREE"@));
                    },
                    None => {},
                }
            },
            None => {},
        }
    }
    env.map
}

/// The fifteen environment facts with their default values.
#[verifier::rlimit(100)]
fn new_system_table(build_os: String) -> (r: FactTable)
    ensures
        distinct_keys(r@),
        r@.len() == 15,
        val_of(r@, "BUILD_OS"@) == Some(
            ConstValView { desc: BUILD_OS_DOC@, v: build_os@, t: ConstType::Str },
        ),
        val_of(r@, "RUST_CHANNEL"@) == Some(
            ConstValView { desc: RUST_CHANNEL_DOC@, v: Seq::<char>::empty(), t: ConstType::Str },
        ),
        val_of(r@, "CARGO_METADATA"@) == Some(
            ConstValView { desc: CARGO_METADATA_DOC@, v: Seq::<char>::empty(), t: ConstType::Slice },
        ),
        val_of(r@, "RUST_VERSION"@) == Some(
            ConstValView { desc: RUST_VERSION_DOC@, v: Seq::<char>::empty(), t: ConstType::Str },
        ),
        val_of(r@, "CARGO_VERSION"@) == Some(
            ConstValView { desc: CARGO_VERSION_DOC@, v: Seq::<char>::empty(), t: ConstType::Str },
        ),
        val_of(r@, "CARGO_TREE"@) == Some(
            ConstValView { desc: CARGO_TREE_DOC@, v: Seq::<char>::empty(), t: ConstType::Str },
        ),
        val_of(r@, "BUILD_TARGET"@) == Some(
            ConstValView { desc: BUILD_TARGET_DOC@, v: Seq::<char>::empty(), t: ConstType::Str },
        ),
        val_of(r@, "BUILD_TARGET_ARCH"@) == Some(
            ConstValView { desc: BUILD_TARGET_ARCH_DOC@, v: Seq::<char>::empty(), t: ConstType::Str },
        ),
        val_of(r@, "PKG_VERSION"@) == Some(
            ConstValView { desc: PKG_VERSION_DOC@, v: Seq::<char>::empty(), t: ConstType::Str },
        ),
        val_of(r@, "PKG_DESCRIPTION"@) == Some(
            ConstValView { desc: PKG_DESCRIPTION_DOC@, v: Seq::<char>::empty(), t: ConstType::Str },
        ),
        val_of(r@, "PKG_VERSION_MAJOR"@) == Some(
            ConstValView { desc: PKG_VERSION_MAJOR_DOC@, v: Seq::<char>::empty(), t: ConstType::Str },
        ),
        val_of(r@, "PKG_VERSION_MINOR"@) == Some(
            ConstValView { desc: PKG_VERSION_MINOR_DOC@, v: Seq::<char>::empty(), t: ConstType::Str },
        ),
        val_of(r@, "PKG_VERSION_PATCH"@) == Some(
            ConstValView { desc: PKG_VERSION_PATCH_DOC@, v: Seq::<char>::empty(), t: ConstType::Str },
        ),
        val_of(r@, "PKG_VERSION_PRE"@) == Some(
            ConstValView { desc: PKG_VERSION_PRE_DOC@, v: Seq::<char>::empty(), t: ConstType::Str },
        ),
        val_of(r@, "CARGO_MANIFEST_DIR"@) == Some(
            ConstValView { desc: CARGO_MANIFEST_DIR_DOC@, v: Seq::<char>::empty(), t: ConstType::Str },
        ),
{
    proof {
        lemma_env_key_literals_distinct();
    }
    let mut t = FactTable::new();
    t.insert("BUILD_OS", ConstVal { desc: String::from_str(BUILD_OS_DOC), v: build_os, t: ConstType::Str });
    t.insert("RUST_CHANNEL", ConstVal::new(RUST_CHANNEL_DOC));
    t.insert("CARGO_METADATA", ConstVal::new_slice(CARGO_METADATA_DOC));
    t.insert("RUST_VERSION", ConstVal::new(RUST_VERSION_DOC));
    t.insert("CARGO_VERSION", ConstVal::new(CARGO_VERSION_DOC));
    t.insert("CARGO_TREE", ConstVal::new(CARGO_TREE_DOC));
    t.insert("BUILD_TARGET", ConstVal::new(BUILD_TARGET_DOC));
    t.insert("BUILD_TARGET_ARCH", ConstVal::new(BUILD_TARGET_ARCH_DOC));
    t.insert("PKG_VERSION", ConstVal::new(PKG_VERSION_DOC));
    t.insert("PKG_DESCRIPTION", ConstVal::new(PKG_DESCRIPTION_DOC));
    t.insert("PKG_VERSION_MAJOR", ConstVal::new(PKG_VERSION_MAJOR_DOC));
    t.insert("PKG_VERSION_MINOR", ConstVal::new(PKG_VERSION_MINOR_DOC));
    t.insert("PKG_VERSION_PATCH", ConstVal::new(PKG_VERSION_PATCH_DOC));
    t.insert("PKG_VERSION_PRE", ConstVal::new(PKG_VERSION_PRE_DOC));
    t.insert("CARGO_MANIFEST_DIR", ConstVal::new(CARGO_MANIFEST_DIR_DOC));
    t
}

} // verus!

verus! {

/// The project-level facts of one resolution run.
#[derive(Debug, Clone)]
pub struct Project {
    pub map: FactTable,
}

/// The distinct project fact keys.
proof fn lemma_project_keys_distinct()
    ensures
        "BUILD_TIME"@ != "BUILD_TIME_2822"@,
        "BUILD_TIME"@ != "BUILD_TIME_3339"@,
        "BUILD_TIME"@ != "BUILD_RUST_CHANNEL"@,
        "BUILD_TIME"@ != "PROJECT_NAME"@,
        "BUILD_TIME_2822"@ != "BUILD_TIME_3339"@,
        "BUILD_TIME_2822"@ != "BUILD_RUST_CHANNEL"@,
        "BUILD_TIME_2822"@ != "PROJECT_NAME"@,
        "BUILD_TIME_3339"@ != "BUILD_RUST_CHANNEL"@,
        "BUILD_TIME_3339"@ != "PROJECT_NAME"@,
        "BUILD_RUST_CHANNEL"@ != "PROJECT_NAME"@,
{
    reveal_strlit("BUILD_TIME");
    reveal_strlit("BUILD_TIME_2822");
    reveal_strlit("BUILD_TIME_3339");
    reveal_strlit("BUILD_RUST_CHANNEL");
    reveal_strlit("PROJECT_NAME");
    assert("BUILD_TIME"@.len() == 10);
    assert("BUILD_TIME_2822"@.len() == 15);
    assert("BUILD_TIME_3339"@.len() == 15);
    assert("BUILD_RUST_CHANNEL"@.len() == 18);
    assert("PROJECT_NAME"@.len() == 12);
    assert("BUILD_TIME_2822"@[11] == '2');
    assert("BUILD_TIME_3339"@[11] == '3');
}

/// Record the three build-time facts: the human, internet-mail and
/// extended renderings of the given instant.
pub fn build_time(project: &mut Project, time: &DateTime)
    requires
        time.wf(),
        !has_key(old(project).map@, "BUILD_TIME"@),
        !has_key(old(project).map@, "BUILD_TIME_2822"@),
        !has_key(old(project).map@, "BUILD_TIME_3339"@),
    ensures
        final(project).map@.len() == old(project).map@.len() + 3,
        val_of(final(project).map@, "BUILD_TIME"@) == Some(
            ConstValView {
                desc: BUILD_TIME_DOC@,
                v: human_chars(time.odt_spec()),
                t: ConstType::Str,
            },
        ),
        val_of(final(project).map@, "BUILD_TIME_2822"@) == Some(
            ConstValView {
                desc: BUILD_TIME_2822_DOC@,
                v: rfc2822_chars(time.odt_spec()),
                t: ConstType::Str,
            },
        ),
        val_of(final(project).map@, "BUILD_TIME_3339"@) == Some(
            ConstValView {
                desc: BUILD_TIME_3339_DOC@,
                v: rfc3339_chars(time.odt_spec()),
                t: ConstType::Str,
            },
        ),
        forall|k2: Seq<char>|
            (k2 != "BUILD_TIME"@ && k2 != "BUILD_TIME_2822"@ && k2 != "BUILD_TIME_3339"@)
                ==> #[trigger] val_of(final(project).map@, k2) == val_of(old(project).map@, k2),
        distinct_keys(old(project).map@) ==> distinct_keys(final(project).map@),
{
    proof {
        lemma_project_keys_distinct();
    }
    project.map.insert(
        "BUILD_TIME",
        ConstVal {
            desc: String::from_str(BUILD_TIME_DOC),
            v: time.human_format(),
            t: ConstType::Str,
        },
    );
    project.map.insert(
        "BUILD_TIME_2822",
        ConstVal {
            desc: String::from_str(BUILD_TIME_2822_DOC),
            v: time.to_rfc2822(),
            t: ConstType::Str,
        },
    );
    project.map.insert(
        "BUILD_TIME_3339",
        ConstVal {
            desc: String::from_str(BUILD_TIME_3339_DOC),
            v: time.to_rfc3339(),
            t: ConstType::Str,
        },
    );
}

/// The project fact table of one run: the three renderings of the
/// build instant, the build variant, and the project name from the
/// snapshot `env`.
pub open spec fn project_table(
    t: Seq<FactView>,
    env: Seq<crate::fact::EnvEntryView>,
    time: DateTime,
    channel: BuildRustChannel,
) -> bool {
    &&& (distinct_keys(t))
    &&& (t.len() == 5)
    &&& (val_of(t, "BUILD_TIME"@) == Some(
            ConstValView {
                desc: BUILD_TIME_DOC@,
                v: human_chars(time.odt_spec()),
                t: ConstType::Str,
            },
        ))
    &&& (val_of(t, "BUILD_TIME_2822"@) == Some(
            ConstValView {
                desc: BUILD_TIME_2822_DOC@,
                v: rfc2822_chars(time.odt_spec()),
                t: ConstType::Str,
            },
        ))
    &&& (val_of(t, "BUILD_TIME_3339"@) == Some(
            ConstValView {
                desc: BUILD_TIME_3339_DOC@,
                v: rfc3339_chars(time.odt_spec()),
                t: ConstType::Str,
            },
        ))
    &&& (val_of(t, "BUILD_RUST_CHANNEL"@) matches Some(f) && f.desc == BUILD_RUST_CHANNEL_DOC@
            && f.t == ConstType::Str && f.v == (if channel == BuildRustChannel::Debug {
            "debug"@
        } else {
            "release"@
        }))
    &&& ((env_val(env, "CARGO_PKG_NAME"@) matches Some(v) ==> (val_of(t, "PROJECT_NAME"@)
            matches Some(f) && f.v == v && f.desc == PROJECT_NAME_DOC@)))
    &&& ((env_val(env, "CARGO_PKG_NAME"@) is None ==> (val_of(t, "PROJECT_NAME"@)
            matches Some(f) && f.v == Seq::<char>::empty() && f.desc == PROJECT_NAME_DOC@)))
}

/// Create the project-level facts: the three build-time renderings,
/// the build variant, and the project name from the snapshot.
#[verifier::rlimit(100)]
pub fn new_project(std_env: &EnvSnapshot, time: &DateTime, channel: BuildRustChannel) -> (r:
    FactTable)
    requires
        time.wf(),
    ensures
        project_table(r@, std_env@, *time, channel),
{
    proof {
        lemma_project_keys_distinct();
    }
    let mut project = Project { map: FactTable::new() };
    build_time(&mut project, time);
    let name = channel.channel_name();
    project.map.insert(
        "BUILD_RUST_CHANNEL",
        ConstVal {
            desc: String::from_str(BUILD_RUST_CHANNEL_DOC),
            v: String::from_str(name),
            t: ConstType::Str,
        },
    );
    project.map.insert("PROJECT_NAME", ConstVal::new(PROJECT_NAME_DOC));
    match std_env.get("CARGO_PKG_NAME") {
        Some(v) => {
            project.map.update_value("PROJECT_NAME", v);
        },
        None => {},
    }
    project.map
}

} // verus!

//! Repository-derived facts: the describe-string parser, the working-tree
//! status formatter, and the resolver that turns query results into the
//! repository part of the fact table.

use vstd::prelude::*;

use crate::ci::CiType;
use crate::date_time::{human_chars, rfc2822_chars, rfc3339_chars, DateTime, OffsetDateTime};
use crate::err::{SdResult, ShadowError};
use crate::fact::{
    bool_chars, distinct_keys, env_val, has_key, table_updated, val_of, ConstType, ConstVal,
    ConstValView, EnvSnapshot, FactTable, FactView,
};
use crate::strutil::{
    all_digits, chars_match_at, chars_to_string, dec_chars, dec_chars_signed, digits_val,
    is_digit_char, matches_at, parse_digits, slice_chars, str_eq, str_to_chars,
};

verus! {

/// The index of the last `-` in `s`, or `-1` when there is none.
pub open spec fn last_dash(s: Seq<char>) -> int
    decreases s.len(),
{
    if s.len() == 0 {
        -1
    } else if s.last() == '-' {
        s.len() - 1
    } else {
        last_dash(s.drop_last())
    }
}

/// The number of leading `g` characters of `s`.
pub open spec fn g_prefix_len(s: Seq<char>) -> int
    decreases s.len(),
{
    if s.len() > 0 && s[0] == 'g' {
        1 + g_prefix_len(s.subrange(1, s.len() as int))
    } else {
        0
    }
}

/// `s` with every leading `g` removed.
pub open spec fn strip_g(s: Seq<char>) -> Seq<char> {
    s.subrange(g_prefix_len(s), s.len() as int)
}

/// What parsing a describe string against the separately queried nearest
/// tag yields: the tag, and the commit distance and abbreviated hash when
/// the describe string carries a suffix. `None` is a format error.
///
/// The split works from the right: the last `-`-separated segment must be
/// a `g`-prefixed hash, the one before it a non-negative decimal commit
/// count, and everything before those two segments is the tag, so tags
/// containing `-` are reconstructed whole. A describe string that
/// extends the tag with fewer than three such segments is a format
/// error: the two queries disagree, a real anomaly.
pub open spec fn spec_parse_describe(tag: Seq<char>, desc: Seq<char>) -> Option<
    (Seq<char>, Option<nat>, Option<Seq<char>>),
> {
    if !matches_at(desc, tag, 0) {
        None
    } else if tag == desc {
        Some((desc, None, None))
    } else {
        let p1 = last_dash(desc);
        if p1 < 0 {
            None
        } else {
            let p0 = last_dash(desc.subrange(0, p1));
            if p0 < 0 {
                None
            } else {
                let hash_seg = desc.subrange(p1 + 1, desc.len() as int);
                let num_seg = desc.subrange(p0 + 1, p1);
                if hash_seg.len() == 0 || hash_seg[0] != 'g' {
                    None
                } else if num_seg.len() == 0 || !all_digits(num_seg) || digits_val(num_seg)
                    > usize::MAX as nat {
                    None
                } else {
                    Some(
                        (
                            desc.subrange(0, p0),
                            Some(digits_val(num_seg)),
                            Some(strip_g(hash_seg)),
                        ),
                    )
                }
            }
        }
    }
}

/// The index of the last `-` in `v[0..end]`, or none.
fn last_dash_before(v: &Vec<char>, end: usize) -> (r: Option<usize>)
    requires
        end <= v@.len(),
    ensures
        match r {
            Some(i) => i < end && last_dash(v@.subrange(0, end as int)) == i as int,
            None => last_dash(v@.subrange(0, end as int)) == -1,
        },
{
    let mut i: usize = end;
    while i > 0
        invariant
            i <= end <= v@.len(),
            last_dash(v@.subrange(0, end as int)) == last_dash(v@.subrange(0, i as int)),
        decreases i,
    {
        proof {
            let cur = v@.subrange(0, i as int);
            assert(cur.drop_last() =~= v@.subrange(0, i - 1));
        }
        if v[i - 1] == '-' {
            return Some(i - 1);
        }
        i = i - 1;
    }
    proof {
        assert(v@.subrange(0, 0) =~= Seq::<char>::empty());
    }
    None
}

/// Parse the output of a repository describe query.
///
/// `last_tag` is the nearest reachable tag, obtained independently;
/// `describe` is the full describe string. When the build commit carries
/// the tag itself the result has no distance and no hash; otherwise the
/// trailing `-<count>-g<hash>` suffix is split off from the right, so a
/// tag containing `-` survives whole. Inconsistent or malformed input —
/// including an extension of the tag with fewer than three segments —
/// is a format error.
pub fn parse_git_describe(last_tag: &str, describe: &str) -> (r: SdResult<
    (String, Option<usize>, Option<String>),
>)
    ensures
        match r {
            Ok(p) => spec_parse_describe(last_tag@, describe@) matches Some(v) && {
                &&& v.0 == p.0@
                &&& (match (v.1, p.1) {
                    (Some(a), Some(b)) => a == b as nat,
                    (None, None) => true,
                    _ => false,
                })
                &&& (match (v.2, p.2) {
                    (Some(a), Some(b)) => a == b@,
                    (None, None) => true,
                    _ => false,
                })
            },
            Err(_) => spec_parse_describe(last_tag@, describe@) is None,
        },
{
    let tag_chars = str_to_chars(last_tag);
    let desc_chars = str_to_chars(describe);
    let tag_len: usize = tag_chars.len();
    let desc_len: usize = desc_chars.len();

    if tag_len > desc_len || !chars_match_at(&desc_chars, &tag_chars, 0) {
        proof {
            if tag_len > desc_len {
                assert(!matches_at(describe@, last_tag@, 0));
            }
        }
        return Err(ShadowError::new(String::from_str("git describe result error")));
    }
    if str_eq(last_tag, describe) {
        return Ok((String::from_str(describe), None, None));
    }

    let p1 = match last_dash_before(&desc_chars, desc_len) {
        Some(i) => i,
        None => {
            proof {
                assert(desc_chars@.subrange(0, desc_len as int) =~= describe@);
            }
            return Err(
                ShadowError::new(
                    String::from_str(
                        "git describe result error,expect:<tag>-<num_commits>-g<hash>",
                    ),
                ),
            );
        },
    };
    proof {
        assert(desc_chars@.subrange(0, desc_len as int) =~= describe@);
    }
    let p0 = match last_dash_before(&desc_chars, p1) {
        Some(i) => i,
        None => {
            return Err(
                ShadowError::new(
                    String::from_str(
                        "git describe result error,expect:<tag>-<num_commits>-g<hash>",
                    ),
                ),
            );
        },
    };

    // The last segment must carry the abbreviated hash behind a `g` mark.
    let ghost hash_seg = describe@.subrange(p1 + 1, desc_len as int);
    if p1 + 1 == desc_len || desc_chars[p1 + 1] != 'g' {
        return Err(
            ShadowError::new(
                String::from_str(
                    "git describe result error,expect commit hash end with:-g<hash>",
                ),
            ),
        );
    }

    // The segment before it must be a non-negative commit count.
    let num = match parse_digits(&desc_chars, p0 + 1, p1) {
        Some(value) => value,
        None => {
            return Err(ShadowError::new(String::from_str("invalid commit count")));
        },
    };
    if num > usize::MAX as u64 {
        return Err(ShadowError::new(String::from_str("invalid commit count")));
    }

    // Strip every leading `g` from the hash segment; the describe
    // convention writes exactly one mark.
    let mut h: usize = p1 + 1;
    while h < desc_len && desc_chars[h] == 'g'
        invariant
            p1 + 1 <= h <= desc_len,
            desc_len == desc_chars@.len(),
            forall|j: int| p1 + 1 <= j < h ==> desc_chars@[j] == 'g',
        decreases desc_len - h,
    {
        h = h + 1;
    }
    proof {
        lemma_g_prefix_position(describe@, p1 + 1, h as int);
    }

    let tag_out = chars_to_string(&slice_chars(&desc_chars, 0, p0));
    let hash_out = chars_to_string(&slice_chars(&desc_chars, h, desc_len));
    proof {
        assert(hash_seg.subrange(g_prefix_len(hash_seg), hash_seg.len() as int) =~= describe@
            .subrange(h as int, desc_len as int));
    }
    Ok((tag_out, Some(num as usize), Some(hash_out)))
}

/// If the characters of `s` from `from` up to `h` are all `g` and `h` is
/// the end or carries something else, then `h - from` is the length of the
/// `g` prefix of the segment starting at `from`.
proof fn lemma_g_prefix_position(s: Seq<char>, from: int, h: int)
    requires
        0 <= from <= h <= s.len(),
        forall|j: int| from <= j < h ==> s[j] == 'g',
        h == s.len() || s[h] != 'g',
    ensures
        g_prefix_len(s.subrange(from, s.len() as int)) == h - from,
    decreases h - from,
{
    let seg = s.subrange(from, s.len() as int);
    if h == from {
        if seg.len() > 0 {
            assert(seg[0] == s[from]);
        }
    } else {
        assert(seg[0] == 'g');
        assert(seg.subrange(1, seg.len() as int) =~= s.subrange(from + 1, s.len() as int));
        lemma_g_prefix_position(s, from + 1, h);
    }
}

} // verus!

verus! {

pub const BRANCH_DOC: &'static str = "\nThe name of the Git branch that this project was built from.\nThis constant will be empty if the branch cannot be determined.";

pub const TAG_DOC: &'static str = "\nThe name of the Git tag that this project was built from.\nNote that this will be empty if there is no tag for the HEAD at the time of build.";

pub const LAST_TAG_DOC: &'static str = "\nThe name of the last Git tag on the branch that this project was built from.\nAs opposed to the tag fact, this does not require the current commit to be tagged, just one of its parents.\n\nThis constant will be empty if the last tag cannot be determined.";

pub const COMMITS_SINCE_TAG_DOC: &'static str = "\nThe number of commits since the last Git tag on the branch that this project was built from.\nThis value indicates how many commits have been made after the last tag and before the current commit.\n\nIf there are no additional commits after the last tag (i.e., the current commit is exactly at a tag),\nthis value will be `0`.\n\nThis constant will be empty or `0` if the last tag cannot be determined or if there are no commits after it.\n";

pub const SHORT_COMMIT_DOC: &'static str = "\nThe short hash of the Git commit that this project was built from.\nNote that this will always truncate the full commit hash to 8 characters if necessary.\nDepending on the amount of commits in your project, this may not yield a unique Git identifier.\n\nThis constant will be empty if the last commit cannot be determined.";

pub const COMMIT_HASH_DOC: &'static str = "\nThe full commit hash of the Git commit that this project was built from.\nAn abbreviated, but not necessarily unique, version of this is the short commit fact.\n\nThis constant will be empty if the last commit cannot be determined.";

pub const COMMIT_DATE_DOC: &'static str = "The time of the Git commit that this project was built from.\nThe time is formatted in modified ISO 8601 format (`YYYY-MM-DD HH-MM ±hh-mm` where hh-mm is the offset from UTC).\nThe timezone information from the original commit is preserved.\n\nThis constant will be empty if the last commit cannot be determined.";

pub const COMMIT_DATE_2822_DOC: &'static str = "\nThe time of the Git commit that this project was built from.\nThe time is formatted according to RFC 2822 (e.g. HTTP Headers).\nThe timezone information from the original commit is preserved.\n\nThis constant will be empty if the last commit cannot be determined.";

pub const COMMIT_DATE_3339_DOC: &'static str = "\nThe time of the Git commit that this project was built from.\nThe time is formatted according to RFC 3339 and ISO 8601.\nThe timezone information from the original commit is preserved.\n\nThis constant will be empty if the last commit cannot be determined.";

pub const COMMIT_TIMESTAMP_DOC: &'static str = "\nThe time of the Git commit as a Unix timestamp (seconds since Unix epoch).\n\nThis constant will be empty if the last commit cannot be determined.";

pub const COMMIT_AUTHOR_DOC: &'static str = "\nThe author of the Git commit that this project was built from.\n\nThis constant will be empty if the last commit cannot be determined.";

pub const COMMIT_EMAIL_DOC: &'static str = "\nThe e-mail address of the author of the Git commit that this project was built from.\n\nThis constant will be empty if the last commit cannot be determined.";

pub const GIT_CLEAN_DOC: &'static str = "\nWhether the Git working tree was clean at the time of project build (`true`), or not (`false`).\n\nThis constant will be `false` if the last commit cannot be determined.";

pub const GIT_STATUS_FILE_DOC: &'static str = "\nThe Git working tree status as a list of files with their status, similar to `git status`.\nEach line of the list is preceded with `  * `, followed by the file name.\nFiles marked `(dirty)` have unstaged changes.\nFiles marked `(staged)` have staged changes.\n\nThis constant will be empty if the working tree status cannot be determined.";

/// One line per file, marked with how it differs from the index.
pub open spec fn lines_marked(files: Seq<Seq<char>>, mark: Seq<char>) -> Seq<char>
    decreases files.len(),
{
    if files.len() == 0 {
        Seq::empty()
    } else {
        lines_marked(files.drop_last(), mark) + "  * "@ + files.last() + mark
    }
}

/// Format the changed files of a working tree: the dirty files first,
/// then the staged ones, one marked line each.
pub fn filter_git_dirty_stage(dirty_files: Vec<String>, staged_files: Vec<String>) -> (r: String)
    ensures
        r@ == lines_marked(dirty_files@.map_values(|p: String| p@), " (dirty)\n"@) + lines_marked(
            staged_files@.map_values(|p: String| p@),
            " (staged)\n"@,
        ),
{
    let mut concat_file = String::new();
    let n: usize = dirty_files.len();
    let mut i: usize = 0;
    proof {
        assert(dirty_files@.subrange(0, 0).map_values(|p: String| p@)
            =~= Seq::<Seq<char>>::empty());
        assert(concat_file@ =~= lines_marked(
            dirty_files@.subrange(0, 0).map_values(|p: String| p@),
            " (dirty)\n"@,
        ));
    }
    while i < n
        invariant
            i <= n,
            n == dirty_files@.len(),
            concat_file@ == lines_marked(
                dirty_files@.subrange(0, i as int).map_values(|p: String| p@),
                " (dirty)\n"@,
            ),
        decreases n - i,
    {
        concat_file.append("  * ");
        concat_file.append(dirty_files[i].as_str());
        concat_file.append(" (dirty)\n");
        i = i + 1;
        proof {
            let cur = dirty_files@.subrange(0, i as int).map_values(|p: String| p@);
            assert(cur.drop_last() =~= dirty_files@.subrange(0, i - 1).map_values(
                |p: String| p@,
            ));
            assert(cur.last() == dirty_files@[i - 1]@);
        }
    }
    proof {
        assert(dirty_files@.subrange(0, n as int) =~= dirty_files@);
    }
    let ghost dirty_part = concat_file@;
    let m: usize = staged_files.len();
    let mut j: usize = 0;
    proof {
        assert(staged_files@.subrange(0, 0).map_values(|p: String| p@)
            =~= Seq::<Seq<char>>::empty());
        assert(concat_file@ =~= dirty_part + lines_marked(
            staged_files@.subrange(0, 0).map_values(|p: String| p@),
            " (staged)\n"@,
        ));
    }
    while j < m
        invariant
            j <= m,
            m == staged_files@.len(),
            concat_file@ == dirty_part + lines_marked(
                staged_files@.subrange(0, j as int).map_values(|p: String| p@),
                " (staged)\n"@,
            ),
            dirty_part == lines_marked(
                dirty_files@.map_values(|p: String| p@),
                " (dirty)\n"@,
            ),
        decreases m - j,
    {
        concat_file.append("  * ");
        concat_file.append(staged_files[j].as_str());
        concat_file.append(" (staged)\n");
        j = j + 1;
        proof {
            let cur = staged_files@.subrange(0, j as int).map_values(|p: String| p@);
            assert(cur.drop_last() =~= staged_files@.subrange(0, j - 1).map_values(
                |p: String| p@,
            ));
            assert(cur.last() == staged_files@[j - 1]@);
            assert(concat_file@ =~= dirty_part + (lines_marked(cur.drop_last(), " (staged)\n"@)
                + "  * "@ + cur.last() + " (staged)\n"@));
        }
    }
    proof {
        assert(staged_files@.subrange(0, m as int) =~= staged_files@);
    }
    concat_file
}

/// The resolved describe queries: the nearest-tag, the distance and the
/// abbreviated hash, as the resolver stores them.
pub fn describe_result(last_tag: &Option<String>, describe: &Option<String>) -> (r: (
    Option<String>,
    Option<usize>,
    Option<String>,
))
    ensures
        match last_tag {
            None => r.0 is None && r.1 is None && r.2 is None,
            Some(tag) => {
                &&& r.0 matches Some(t0) && {
                    match describe {
                        Some(desc) => match spec_parse_describe(tag@, desc@) {
                            Some(v) => {
                                &&& t0@ == v.0
                                &&& (match (v.1, r.1) {
                                    (Some(a), Some(b)) => a == b as nat,
                                    (None, None) => true,
                                    _ => false,
                                })
                                &&& (match (v.2, r.2) {
                                    (Some(a), Some(b)) => a == b@,
                                    (None, None) => true,
                                    _ => false,
                                })
                            },
                            None => t0@ == tag@ && r.1 is None && r.2 is None,
                        },
                        None => t0@ == tag@ && r.1 is None && r.2 is None,
                    }
                }
            },
        },
{
    match last_tag {
        None => (None, None, None),
        Some(tag) => match describe {
            Some(desc) => match parse_git_describe(tag.as_str(), desc.as_str()) {
                Ok(parts) => (Some(parts.0), parts.1, parts.2),
                Err(_) => (Some(tag.clone()), None, None),
            },
            None => (Some(tag.clone()), None, None),
        },
    }
}

} // verus!

verus! {

/// The textual results of the head-commit queries of the command-line
/// adapter, handed to the resolver as plain values.
#[derive(Debug, Clone)]
pub struct GitHeadInfo {
    pub commit: String,
    pub short_commit: String,
    pub email: String,
    pub author: String,
    /// The commit time as raw Unix seconds, when the adapter got it.
    pub date: String,
    /// The commit time as an offset-aware timestamp, when the adapter
    /// got it; empty otherwise.
    pub date_iso: String,
}

/// The results of the command-line queries a resolution run consumes.
#[derive(Debug, Clone)]
pub struct CommandQueries {
    pub head: GitHeadInfo,
    pub git_clean: bool,
    pub status_file: String,
    pub branch: Option<String>,
    pub current_tag: Option<String>,
    pub last_tag: Option<String>,
    pub describe: Option<String>,
}

/// The value an update writes over `t` at key `k`: the old description
/// with the new value and kind, or nothing when the key is absent.
pub open spec fn upd_val(t: Seq<FactView>, v: Seq<char>, tt: ConstType, k: Seq<char>) -> Option<
    ConstValView,
> {
    match val_of(t, k) {
        Some(f) => Some(ConstValView { desc: f.desc, v: v, t: tt }),
        None => None,
    }
}

/// The frame of the resolver's updates: entry count and keys are kept,
/// distinct keys stay distinct, and every key keeps its description and
/// its presence.
pub open spec fn keys_frame(old_t: Seq<FactView>, new_t: Seq<FactView>) -> bool {
    &&& new_t.len() == old_t.len()
    &&& forall|j: int| 0 <= j < old_t.len() ==> (#[trigger] new_t[j].key) == old_t[j].key
    &&& distinct_keys(old_t) ==> distinct_keys(new_t)
    &&& forall|k2: Seq<char>|
        match (#[trigger] val_of(old_t, k2), val_of(new_t, k2)) {
            (Some(a), Some(b)) => a.desc == b.desc,
            (None, None) => true,
            _ => false,
        }
}

/// The four commit-date facts carry the renderings of the instant `o`.
pub open spec fn date_facts_from(
    old_t: Seq<FactView>,
    new_t: Seq<FactView>,
    o: OffsetDateTime,
) -> bool {
    &&& val_of(new_t, "COMMIT_DATE"@) == upd_val(
        old_t,
        human_chars(o),
        ConstType::Str,
        "COMMIT_DATE"@,
    )
    &&& val_of(new_t, "COMMIT_DATE_2822"@) == upd_val(
        old_t,
        rfc2822_chars(o),
        ConstType::Str,
        "COMMIT_DATE_2822"@,
    )
    &&& val_of(new_t, "COMMIT_DATE_3339"@) == upd_val(
        old_t,
        rfc3339_chars(o),
        ConstType::Str,
        "COMMIT_DATE_3339"@,
    )
    &&& val_of(new_t, "COMMIT_TIMESTAMP"@) == upd_val(
        old_t,
        dec_chars_signed(o.unix as int),
        ConstType::Int,
        "COMMIT_TIMESTAMP"@,
    )
}

/// The four commit-date facts are untouched.
pub open spec fn date_facts_unchanged(old_t: Seq<FactView>, new_t: Seq<FactView>) -> bool {
    &&& val_of(new_t, "COMMIT_DATE"@) == val_of(old_t, "COMMIT_DATE"@)
    &&& val_of(new_t, "COMMIT_DATE_2822"@) == val_of(old_t, "COMMIT_DATE_2822"@)
    &&& val_of(new_t, "COMMIT_DATE_3339"@) == val_of(old_t, "COMMIT_DATE_3339"@)
    &&& val_of(new_t, "COMMIT_TIMESTAMP"@) == val_of(old_t, "COMMIT_TIMESTAMP"@)
}

/// How the commit-date facts follow from the two textual time queries:
/// the offset-aware timestamp is authoritative when it parses; failing
/// that, the raw Unix seconds stand in, read as UTC; and when neither
/// is usable the date facts stay untouched.
pub open spec fn date_facts_resolved(
    old_t: Seq<FactView>,
    new_t: Seq<FactView>,
    date: Seq<char>,
    date_iso: Seq<char>,
) -> bool {
    if date_iso.len() > 0 && crate::date_time::spec_parse_iso(date_iso) is Some {
        date_facts_from(old_t, new_t, crate::date_time::spec_parse_iso(date_iso)->Some_0)
    } else if crate::strutil::spec_parse_i64(date) matches Some(ts) && 0 <= ts
        + crate::date_time::epoch_secs() < crate::civil::days_before_year(10000) * 86400 {
        exists|o: OffsetDateTime|
            {
                &&& #[trigger] date_facts_from(old_t, new_t, o)
                &&& o.wf()
                &&& o.offset_seconds == 0
                &&& crate::strutil::spec_parse_i64(date) == Some(o.unix as int)
            }
    } else {
        date_facts_unchanged(old_t, new_t)
    }
}

/// What applying the head-commit query results does to the table.
pub open spec fn head_facts_applied(
    old_t: Seq<FactView>,
    new_t: Seq<FactView>,
    head: GitHeadInfo,
    clean: bool,
    status_file: Seq<char>,
) -> bool {
    &&& keys_frame(old_t, new_t)
    &&& val_of(new_t, "GIT_CLEAN"@) == upd_val(old_t, bool_chars(clean), ConstType::Bool, "GIT_CLEAN"@)
    &&& val_of(new_t, "GIT_STATUS_FILE"@) == upd_val(old_t, status_file, ConstType::Str, "GIT_STATUS_FILE"@)
    &&& val_of(new_t, "COMMIT_EMAIL"@) == upd_val(old_t, head.email@, ConstType::Str, "COMMIT_EMAIL"@)
    &&& val_of(new_t, "COMMIT_AUTHOR"@) == upd_val(old_t, head.author@, ConstType::Str, "COMMIT_AUTHOR"@)
    &&& val_of(new_t, "SHORT_COMMIT"@) == upd_val(old_t, head.short_commit@, ConstType::Str, "SHORT_COMMIT"@)
    &&& val_of(new_t, "COMMIT_HASH"@) == upd_val(old_t, head.commit@, ConstType::Str, "COMMIT_HASH"@)
    &&& date_facts_resolved(old_t, new_t, head.date@, head.date_iso@)
    &&& forall|k2: Seq<char>|
        {
            &&& k2 != "GIT_CLEAN"@
            &&& k2 != "GIT_STATUS_FILE"@
            &&& k2 != "COMMIT_EMAIL"@
            &&& k2 != "COMMIT_AUTHOR"@
            &&& k2 != "SHORT_COMMIT"@
            &&& k2 != "COMMIT_HASH"@
            &&& k2 != "COMMIT_DATE"@
            &&& k2 != "COMMIT_DATE_2822"@
            &&& k2 != "COMMIT_DATE_3339"@
            &&& k2 != "COMMIT_TIMESTAMP"@
        } ==> #[trigger] val_of(new_t, k2) == val_of(old_t, k2)
}

/// The repository facts of one resolution run: an ordered fact table
/// and the continuous-integration environment detected for this run.
#[derive(Debug, Clone)]
pub struct Git {
    pub map: FactTable,
    pub ci_type: CiType,
}

impl Git {
    /// Record a text value for an existing key.
    pub fn update_str(&mut self, c: &str, v: String)
        ensures
            table_updated(old(self).map@, final(self).map@, c@, v@, ConstType::Str),
            final(self).ci_type == old(self).ci_type,
    {
        self.map.update_str(c, v);
    }

    /// Record a boolean value for an existing key.
    pub fn update_bool(&mut self, c: &str, v: bool)
        ensures
            table_updated(old(self).map@, final(self).map@, c@, bool_chars(v), ConstType::Bool),
            final(self).ci_type == old(self).ci_type,
    {
        self.map.update_bool(c, v);
    }

    /// Record a non-negative integer value for an existing key.
    pub fn update_usize(&mut self, c: &str, v: usize)
        ensures
            table_updated(
                old(self).map@,
                final(self).map@,
                c@,
                dec_chars(v as nat),
                ConstType::Usize,
            ),
            final(self).ci_type == old(self).ci_type,
    {
        self.map.update_usize(c, v);
    }

    /// Record a signed integer value for an existing key.
    pub fn update_int(&mut self, c: &str, v: i64)
        ensures
            table_updated(
                old(self).map@,
                final(self).map@,
                c@,
                dec_chars_signed(v as int),
                ConstType::Int,
            ),
            final(self).ci_type == old(self).ci_type,
    {
        self.map.update_int(c, v);
    }

    /// Apply the head-commit query results: working-tree state, author,
    /// hashes, and the commit date under the fixed fallback order.
    #[verifier::rlimit(100)]
    pub fn init_git(&mut self, head: &GitHeadInfo, clean: bool, status_file: String)
        ensures
            head_facts_applied(
                old(self).map@,
                final(self).map@,
                *head,
                clean,
                status_file@,
            ),
            final(self).ci_type == old(self).ci_type,
    {
        proof {
            lemma_key_literals_distinct();
        }
        self.update_bool("GIT_CLEAN", clean);
        self.update_str("GIT_STATUS_FILE", status_file);
        self.update_str("COMMIT_EMAIL", head.email.clone());
        self.update_str("COMMIT_AUTHOR", head.author.clone());
        self.update_str("SHORT_COMMIT", head.short_commit.clone());
        self.update_str("COMMIT_HASH", head.commit.clone());
        let mut applied: bool = false;
        if head.date_iso.unicode_len() > 0 {
            match DateTime::from_iso8601_string(head.date_iso.as_str()) {
                Ok(dt) => {
                    self.apply_date_facts(&dt);
                    proof {
                        assert(date_facts_from(old(self).map@, self.map@, dt.odt_spec()));
                    }
                    applied = true;
                },
                Err(_) => {},
            }
        }
        if !applied {
            match crate::strutil::parse_i64(head.date.as_str()) {
                Some(ts) => match DateTime::timestamp_2_utc(ts) {
                    Ok(dt) => {
                        self.apply_date_facts(&dt);
                        proof {
                            assert(date_facts_from(old(self).map@, self.map@, dt.odt_spec()));
                        }
                    },
                    Err(_) => {},
                },
                None => {},
            }
        }
    }

    /// Record the four renderings of one commit instant.
    fn apply_date_facts(&mut self, dt: &DateTime)
        requires
            dt.wf(),
        ensures
            date_facts_from(old(self).map@, final(self).map@, dt.odt_spec()),
            keys_frame(old(self).map@, final(self).map@),
            final(self).ci_type == old(self).ci_type,
            forall|k2: Seq<char>|
                {
                    &&& k2 != "COMMIT_DATE"@
                    &&& k2 != "COMMIT_DATE_2822"@
                    &&& k2 != "COMMIT_DATE_3339"@
                    &&& k2 != "COMMIT_TIMESTAMP"@
                } ==> #[trigger] val_of(final(self).map@, k2) == val_of(old(self).map@, k2),
    {
        proof {
            lemma_key_literals_distinct();
        }
        let human = dt.human_format();
        let r2822 = dt.to_rfc2822();
        let r3339 = dt.to_rfc3339();
        let ts = dt.timestamp();
        self.update_str("COMMIT_DATE", human);
        self.update_str("COMMIT_DATE_2822", r2822);
        self.update_str("COMMIT_DATE_3339", r3339);
        self.update_int("COMMIT_TIMESTAMP", ts);
    }
}

/// The fourteen repository fact keys are pairwise distinct literals.
pub proof fn lemma_key_literals_distinct()
    ensures
        "BRANCH"@ != "TAG"@,
        "BRANCH"@ != "LAST_TAG"@,
        "BRANCH"@ != "COMMITS_SINCE_TAG"@,
        "BRANCH"@ != "COMMIT_HASH"@,
        "BRANCH"@ != "SHORT_COMMIT"@,
        "BRANCH"@ != "COMMIT_AUTHOR"@,
        "BRANCH"@ != "COMMIT_EMAIL"@,
        "BRANCH"@ != "COMMIT_DATE"@,
        "BRANCH"@ != "COMMIT_DATE_2822"@,
        "BRANCH"@ != "COMMIT_DATE_3339"@,
        "BRANCH"@ != "COMMIT_TIMESTAMP"@,
        "BRANCH"@ != "GIT_CLEAN"@,
        "BRANCH"@ != "GIT_STATUS_FILE"@,
        "TAG"@ != "LAST_TAG"@,
        "TAG"@ != "COMMITS_SINCE_TAG"@,
        "TAG"@ != "COMMIT_HASH"@,
        "TAG"@ != "SHORT_COMMIT"@,
        "TAG"@ != "COMMIT_AUTHOR"@,
        "TAG"@ != "COMMIT_EMAIL"@,
        "TAG"@ != "COMMIT_DATE"@,
        "TAG"@ != "COMMIT_DATE_2822"@,
        "TAG"@ != "COMMIT_DATE_3339"@,
        "TAG"@ != "COMMIT_TIMESTAMP"@,
        "TAG"@ != "GIT_CLEAN"@,
        "TAG"@ != "GIT_STATUS_FILE"@,
        "LAST_TAG"@ != "COMMITS_SINCE_TAG"@,
        "LAST_TAG"@ != "COMMIT_HASH"@,
        "LAST_TAG"@ != "SHORT_COMMIT"@,
        "LAST_TAG"@ != "COMMIT_AUTHOR"@,
        "LAST_TAG"@ != "COMMIT_EMAIL"@,
        "LAST_TAG"@ != "COMMIT_DATE"@,
        "LAST_TAG"@ != "COMMIT_DATE_2822"@,
        "LAST_TAG"@ != "COMMIT_DATE_3339"@,
        "LAST_TAG"@ != "COMMIT_TIMESTAMP"@,
        "LAST_TAG"@ != "GIT_CLEAN"@,
        "LAST_TAG"@ != "GIT_STATUS_FILE"@,
        "COMMITS_SINCE_TAG"@ != "COMMIT_HASH"@,
        "COMMITS_SINCE_TAG"@ != "SHORT_COMMIT"@,
        "COMMITS_SINCE_TAG"@ != "COMMIT_AUTHOR"@,
        "COMMITS_SINCE_TAG"@ != "COMMIT_EMAIL"@,
        "COMMITS_SINCE_TAG"@ != "COMMIT_DATE"@,
        "COMMITS_SINCE_TAG"@ != "COMMIT_DATE_2822"@,
        "COMMITS_SINCE_TAG"@ != "COMMIT_DATE_3339"@,
        "COMMITS_SINCE_TAG"@ != "COMMIT_TIMESTAMP"@,
        "COMMITS_SINCE_TAG"@ != "GIT_CLEAN"@,
        "COMMITS_SINCE_TAG"@ != "GIT_STATUS_FILE"@,
        "COMMIT_HASH"@ != "SHORT_COMMIT"@,
        "COMMIT_HASH"@ != "COMMIT_AUTHOR"@,
        "COMMIT_HASH"@ != "COMMIT_EMAIL"@,
        "COMMIT_HASH"@ != "COMMIT_DATE"@,
        "COMMIT_HASH"@ != "COMMIT_DATE_2822"@,
        "COMMIT_HASH"@ != "COMMIT_DATE_3339"@,
        "COMMIT_HASH"@ != "COMMIT_TIMESTAMP"@,
        "COMMIT_HASH"@ != "GIT_CLEAN"@,
        "COMMIT_HASH"@ != "GIT_STATUS_FILE"@,
        "SHORT_COMMIT"@ != "COMMIT_AUTHOR"@,
        "SHORT_COMMIT"@ != "COMMIT_EMAIL"@,
        "SHORT_COMMIT"@ != "COMMIT_DATE"@,
        "SHORT_COMMIT"@ != "COMMIT_DATE_2822"@,
        "SHORT_COMMIT"@ != "COMMIT_DATE_3339"@,
        "SHORT_COMMIT"@ != "COMMIT_TIMESTAMP"@,
        "SHORT_COMMIT"@ != "GIT_CLEAN"@,
        "SHORT_COMMIT"@ != "GIT_STATUS_FILE"@,
        "COMMIT_AUTHOR"@ != "COMMIT_EMAIL"@,
        "COMMIT_AUTHOR"@ != "COMMIT_DATE"@,
        "COMMIT_AUTHOR"@ != "COMMIT_DATE_2822"@,
        "COMMIT_AUTHOR"@ != "COMMIT_DATE_3339"@,
        "COMMIT_AUTHOR"@ != "COMMIT_TIMESTAMP"@,
        "COMMIT_AUTHOR"@ != "GIT_CLEAN"@,
        "COMMIT_AUTHOR"@ != "GIT_STATUS_FILE"@,
        "COMMIT_EMAIL"@ != "COMMIT_DATE"@,
        "COMMIT_EMAIL"@ != "COMMIT_DATE_2822"@,
        "COMMIT_EMAIL"@ != "COMMIT_DATE_3339"@,
        "COMMIT_EMAIL"@ != "COMMIT_TIMESTAMP"@,
        "COMMIT_EMAIL"@ != "GIT_CLEAN"@,
        "COMMIT_EMAIL"@ != "GIT_STATUS_FILE"@,
        "COMMIT_DATE"@ != "COMMIT_DATE_2822"@,
        "COMMIT_DATE"@ != "COMMIT_DATE_3339"@,
        "COMMIT_DATE"@ != "COMMIT_TIMESTAMP"@,
        "COMMIT_DATE"@ != "GIT_CLEAN"@,
        "COMMIT_DATE"@ != "GIT_STATUS_FILE"@,
        "COMMIT_DATE_2822"@ != "COMMIT_DATE_3339"@,
        "COMMIT_DATE_2822"@ != "COMMIT_TIMESTAMP"@,
        "COMMIT_DATE_2822"@ != "GIT_CLEAN"@,
        "COMMIT_DATE_2822"@ != "GIT_STATUS_FILE"@,
        "COMMIT_DATE_3339"@ != "COMMIT_TIMESTAMP"@,
        "COMMIT_DATE_3339"@ != "GIT_CLEAN"@,
        "COMMIT_DATE_3339"@ != "GIT_STATUS_FILE"@,
        "COMMIT_TIMESTAMP"@ != "GIT_CLEAN"@,
        "COMMIT_TIMESTAMP"@ != "GIT_STATUS_FILE"@,
        "GIT_CLEAN"@ != "GIT_STATUS_FILE"@,
{
    reveal_strlit("BRANCH");
    reveal_strlit("TAG");
    reveal_strlit("LAST_TAG");
    reveal_strlit("COMMITS_SINCE_TAG");
    reveal_strlit("COMMIT_HASH");
    reveal_strlit("SHORT_COMMIT");
    reveal_strlit("COMMIT_AUTHOR");
    reveal_strlit("COMMIT_EMAIL");
    reveal_strlit("COMMIT_DATE");
    reveal_strlit("COMMIT_DATE_2822");
    reveal_strlit("COMMIT_DATE_3339");
    reveal_strlit("COMMIT_TIMESTAMP");
    reveal_strlit("GIT_CLEAN");
    reveal_strlit("GIT_STATUS_FILE");
    assert("BRANCH"@.len() == 6);
    assert("TAG"@.len() == 3);
    assert("LAST_TAG"@.len() == 8);
    assert("COMMITS_SINCE_TAG"@.len() == 17);
    assert("COMMIT_HASH"@.len() == 11);
    assert("SHORT_COMMIT"@.len() == 12);
    assert("COMMIT_AUTHOR"@.len() == 13);
    assert("COMMIT_EMAIL"@.len() == 12);
    assert("COMMIT_DATE"@.len() == 11);
    assert("COMMIT_DATE_2822"@.len() == 16);
    assert("COMMIT_DATE_3339"@.len() == 16);
    assert("COMMIT_TIMESTAMP"@.len() == 16);
    assert("GIT_CLEAN"@.len() == 9);
    assert("GIT_STATUS_FILE"@.len() == 15);
    assert("COMMIT_HASH"@[7] == 'H');
    assert("COMMIT_DATE"@[7] == 'D');
    assert("SHORT_COMMIT"@[0] == 'S');
    assert("COMMIT_EMAIL"@[0] == 'C');
    assert("COMMIT_DATE_2822"@[12] == '2');
    assert("COMMIT_DATE_3339"@[12] == '3');
    assert("COMMIT_TIMESTAMP"@[7] == 'T');
}


} // verus!

verus! {

/// The branch name a recognised continuous-integration environment
/// dictates, if any: the fixed vendor variables decide.
pub open spec fn spec_ci_branch(ci: CiType, env: Seq<crate::fact::EnvEntryView>) -> Option<
    Seq<char>,
> {
    match ci {
        CiType::Gitlab => if env_val(env, "CI_COMMIT_TAG"@) is Some {
            None
        } else {
            env_val(env, "CI_COMMIT_REF_NAME"@)
        },
        CiType::Github => match env_val(env, "GITHUB_REF"@) {
            Some(v) => if matches_at(v, "refs/heads/"@, 0) {
                Some(v.subrange(11, v.len() as int))
            } else {
                None
            },
            None => None,
        },
        CiType::Unknown => None,
    }
}

/// The tag name a recognised continuous-integration environment
/// dictates, if any.
pub open spec fn spec_ci_tag(ci: CiType, env: Seq<crate::fact::EnvEntryView>) -> Option<
    Seq<char>,
> {
    match ci {
        CiType::Gitlab => env_val(env, "CI_COMMIT_TAG"@),
        CiType::Github => match env_val(env, "GITHUB_REF"@) {
            Some(v) => if !matches_at(v, "refs/heads/"@, 0) && matches_at(v, "refs/tags/"@, 0) {
                Some(v.subrange(10, v.len() as int))
            } else {
                None
            },
            None => None,
        },
        CiType::Unknown => None,
    }
}

/// What the continuous-integration override does to the table: the
/// dictated branch and tag replace the resolved ones, a dictated tag
/// standing in for the last tag too; outside a recognised environment
/// nothing changes.
pub open spec fn ci_override_applied(
    old_t: Seq<FactView>,
    new_t: Seq<FactView>,
    ci: CiType,
    env: Seq<crate::fact::EnvEntryView>,
) -> bool {
    &&& keys_frame(old_t, new_t)
    &&& match spec_ci_branch(ci, env) {
        Some(b) => val_of(new_t, "BRANCH"@) == upd_val(old_t, b, ConstType::Str, "BRANCH"@),
        None => val_of(new_t, "BRANCH"@) == val_of(old_t, "BRANCH"@),
    }
    &&& match spec_ci_tag(ci, env) {
        Some(t) => val_of(new_t, "TAG"@) == upd_val(old_t, t, ConstType::Str, "TAG"@) && val_of(
            new_t,
            "LAST_TAG"@,
        ) == upd_val(old_t, t, ConstType::Str, "LAST_TAG"@),
        None => val_of(new_t, "TAG"@) == val_of(old_t, "TAG"@) && val_of(new_t, "LAST_TAG"@)
            == val_of(old_t, "LAST_TAG"@),
    }
    &&& forall|k2: Seq<char>|
        (k2 != "BRANCH"@ && k2 != "TAG"@ && k2 != "LAST_TAG"@) ==> #[trigger] val_of(new_t, k2)
            == val_of(old_t, k2)
}

impl Git {
    /// Replace the branch and tag facts with what the detected
    /// continuous-integration environment dictates; outside such an
    /// environment nothing changes.
    pub fn ci_branch_tag(&mut self, std_env: &EnvSnapshot)
        ensures
            final(self).ci_type == old(self).ci_type,
            ci_override_applied(
                old(self).map@,
                final(self).map@,
                old(self).ci_type,
                std_env@,
            ),
    {
        proof {
            lemma_key_literals_distinct();
            reveal_strlit("refs/heads/");
            reveal_strlit("refs/tags/");
        }
        let mut branch: Option<String> = None;
        let mut tag: Option<String> = None;
        match self.ci_type {
            CiType::Gitlab => {
                match std_env.get("CI_COMMIT_TAG") {
                    Some(v) => {
                        tag = Some(v);
                    },
                    None => {
                        match std_env.get("CI_COMMIT_REF_NAME") {
                            Some(v) => {
                                branch = Some(v);
                            },
                            None => {},
                        }
                    },
                }
            },
            CiType::Github => {
                match std_env.get("GITHUB_REF") {
                    Some(v) => {
                        let vc = str_to_chars(v.as_str());
                        let heads = str_to_chars("refs/heads/");
                        let tags = str_to_chars("refs/tags/");
                        let n: usize = vc.len();
                        if heads.len() <= n && chars_match_at(&vc, &heads, 0) {
                            branch = Some(chars_to_string(&slice_chars(&vc, 11, n)));
                        } else {
                            proof {
                                if matches_at(v@, "refs/heads/"@, 0) {
                                }
                            }
                            if tags.len() <= n && chars_match_at(&vc, &tags, 0) {
                                tag = Some(chars_to_string(&slice_chars(&vc, 10, n)));
                            } else {
                                proof {
                                    if matches_at(v@, "refs/tags/"@, 0) {
                                    }
                                }
                            }
                        }
                    },
                    None => {},
                }
            },
            CiType::Unknown => {},
        }
        match branch {
            Some(x) => {
                self.update_str("BRANCH", x);
            },
            None => {},
        }
        match tag {
            Some(x) => {
                let x2 = x.clone();
                self.update_str("TAG", x);
                self.update_str("LAST_TAG", x2);
            },
            None => {},
        }
    }
}

} // verus!

verus! {

/// What the embedded repository library reported for one run, as plain
/// values.
#[derive(Debug)]
pub struct Git2Info {
    pub branch: Option<String>,
    pub commit: Option<String>,
    pub author_name: Option<String>,
    pub author_email: Option<String>,
    /// The head commit's Unix seconds and offset minutes.
    pub time: Option<(i64, i32)>,
    pub status: Option<Vec<(Option<String>, u32)>>,
}

/// Query the repository containing `path` through the embedded
/// library; nothing when there is no repository.
pub fn gather_git2(path: &str) -> Option<Git2Info> {
    match crate::repo::repo_discover(path) {
        Some(repo) => {
            let author = crate::repo::repo_head_author(&repo);
            let (author_name, author_email) = match author {
                Some(p) => (Some(p.0), Some(p.1)),
                None => (None, None),
            };
            Some(
                Git2Info {
                    branch: crate::repo::repo_head_branch(&repo),
                    commit: crate::repo::repo_head_commit(&repo),
                    author_name,
                    author_email,
                    time: crate::repo::repo_head_time(&repo),
                    status: crate::repo::repo_status_entries(&repo),
                },
            )
        },
        None => None,
    }
}

/// An abbreviated hash: the first eight characters of a longer one.
pub open spec fn short_of(s: Seq<char>) -> Seq<char> {
    if s.len() > 8 {
        s.subrange(0, 8)
    } else {
        s
    }
}

/// The formatted working-tree listing of a status query result.
pub open spec fn status_file_of(st: Option<Vec<(Option<String>, u32)>>) -> Seq<char> {
    match st {
        Some(entries) => lines_marked(crate::repo::dirty_paths(entries@), " (dirty)\n"@)
            + lines_marked(crate::repo::staged_paths(entries@), " (staged)\n"@),
        None => Seq::empty(),
    }
}

/// The three commit-date string facts carry the renderings of `o`.
pub open spec fn date_strings_from(
    old_t: Seq<FactView>,
    new_t: Seq<FactView>,
    o: OffsetDateTime,
) -> bool {
    &&& val_of(new_t, "COMMIT_DATE"@) == upd_val(
        old_t,
        human_chars(o),
        ConstType::Str,
        "COMMIT_DATE"@,
    )
    &&& val_of(new_t, "COMMIT_DATE_2822"@) == upd_val(
        old_t,
        rfc2822_chars(o),
        ConstType::Str,
        "COMMIT_DATE_2822"@,
    )
    &&& val_of(new_t, "COMMIT_DATE_3339"@) == upd_val(
        old_t,
        rfc3339_chars(o),
        ConstType::Str,
        "COMMIT_DATE_3339"@,
    )
}

/// The three commit-date string facts are untouched.
pub open spec fn date_strings_unchanged(old_t: Seq<FactView>, new_t: Seq<FactView>) -> bool {
    &&& val_of(new_t, "COMMIT_DATE"@) == val_of(old_t, "COMMIT_DATE"@)
    &&& val_of(new_t, "COMMIT_DATE_2822"@) == val_of(old_t, "COMMIT_DATE_2822"@)
    &&& val_of(new_t, "COMMIT_DATE_3339"@) == val_of(old_t, "COMMIT_DATE_3339"@)
}

/// Whether a second count since year one lies in the supported range.
pub open spec fn in_calendar_range(secs: int) -> bool {
    0 <= secs < crate::civil::days_before_year(10000) * 86400
}

/// How the commit-date strings follow from the library's time answer:
/// rendered in the commit's own offset when representable, in UTC when
/// only the instant is, untouched otherwise.
pub open spec fn git2_date_facts(
    old_t: Seq<FactView>,
    new_t: Seq<FactView>,
    time: Option<(i64, i32)>,
) -> bool {
    match time {
        None => date_strings_unchanged(old_t, new_t),
        Some(t) => {
            let off = t.1 as int * 60;
            if -86340 <= off <= 86340 && in_calendar_range(
                t.0 + off + crate::date_time::epoch_secs(),
            ) {
                exists|o: OffsetDateTime|
                    {
                        &&& #[trigger] date_strings_from(old_t, new_t, o)
                        &&& o.wf()
                        &&& o.unix == t.0
                        &&& o.offset_seconds == off
                    }
            } else if in_calendar_range(t.0 + crate::date_time::epoch_secs()) {
                exists|o: OffsetDateTime|
                    {
                        &&& #[trigger] date_strings_from(old_t, new_t, o)
                        &&& o.wf()
                        &&& o.unix == t.0
                        &&& o.offset_seconds == 0
                    }
            } else {
                date_strings_unchanged(old_t, new_t)
            }
        },
    }
}

/// The branch value the library answer and the command fallback choose.
pub open spec fn branch_choice(info_branch: Option<String>, cmd_branch: Option<String>) -> Seq<
    char,
> {
    match info_branch {
        Some(b) => b@,
        None => match cmd_branch {
            Some(c) => c@,
            None => Seq::empty(),
        },
    }
}

/// The tag value the tag query chooses.
pub open spec fn tag_choice(cmd_tag: Option<String>) -> Seq<char> {
    match cmd_tag {
        Some(t) => t@,
        None => Seq::empty(),
    }
}

impl Git {
    /// Record the three commit-date renderings of one instant.
    fn apply_date_strings(&mut self, dt: &DateTime)
        requires
            dt.wf(),
        ensures
            date_strings_from(old(self).map@, final(self).map@, dt.odt_spec()),
            keys_frame(old(self).map@, final(self).map@),
            final(self).ci_type == old(self).ci_type,
            forall|k2: Seq<char>|
                {
                    &&& k2 != "COMMIT_DATE"@
                    &&& k2 != "COMMIT_DATE_2822"@
                    &&& k2 != "COMMIT_DATE_3339"@
                } ==> #[trigger] val_of(final(self).map@, k2) == val_of(old(self).map@, k2),
    {
        proof {
            lemma_key_literals_distinct();
        }
        let human = dt.human_format();
        let r2822 = dt.to_rfc2822();
        let r3339 = dt.to_rfc3339();
        self.update_str("COMMIT_DATE", human);
        self.update_str("COMMIT_DATE_2822", r2822);
        self.update_str("COMMIT_DATE_3339", r3339);
    }

    /// Apply the identity facts the embedded library reported: the
    /// branch with its command fallback, the tag the command query
    /// answered, the commit hashes and the author.
    #[verifier::rlimit(100)]
    fn apply_git2_ids(&mut self, info: &Git2Info, cmd_branch: &Option<String>, cmd_tag: &Option<
        String,
    >)
        ensures
            git2_ids_applied(
                old(self).map@,
                final(self).map@,
                *info,
                *cmd_branch,
                *cmd_tag,
            ),
            final(self).ci_type == old(self).ci_type,
    {
        proof {
            lemma_key_literals_distinct();
        }
        let b: String = match &info.branch {
            Some(x) => x.clone(),
            None => match cmd_branch {
                Some(c) => c.clone(),
                None => String::new(),
            },
        };
        proof {
            assert(b@ =~= branch_choice(info.branch, *cmd_branch));
        }
        self.update_str("BRANCH", b);
        let t: String = match cmd_tag {
            Some(x) => x.clone(),
            None => String::new(),
        };
        proof {
            assert(t@ =~= tag_choice(*cmd_tag));
        }
        self.update_str("TAG", t);
        match &info.commit {
            Some(c) => {
                let cc = str_to_chars(c.as_str());
                let n: usize = cc.len();
                let short: String = if n > 8 {
                    chars_to_string(&slice_chars(&cc, 0, 8))
                } else {
                    c.clone()
                };
                self.update_str("COMMIT_HASH", c.clone());
                self.update_str("SHORT_COMMIT", short);
            },
            None => {},
        }
        match &info.author_email {
            Some(e) => {
                self.update_str("COMMIT_EMAIL", e.clone());
            },
            None => {},
        }
        match &info.author_name {
            Some(a) => {
                self.update_str("COMMIT_AUTHOR", a.clone());
            },
            None => {},
        }
    }

    /// Apply the working-tree state and the commit-date facts the
    /// embedded library reported.
    #[verifier::rlimit(100)]
    fn apply_git2_state(&mut self, info: &Git2Info)
        ensures
            git2_state_applied(old(self).map@, final(self).map@, *info),
            final(self).ci_type == old(self).ci_type,
    {
        proof {
            lemma_key_literals_distinct();
        }
        let status_file: String = match &info.status {
            Some(entries) => {
                let (d, s) = crate::repo::classify_status_entries(entries);
                filter_git_dirty_stage(d, s)
            },
            None => {
                let e = String::new();
                proof {
                    assert(e@ =~= status_file_of(info.status));
                }
                e
            },
        };
        let clean = crate::env::is_blank_str(&status_file);
        self.update_bool("GIT_CLEAN", clean);
        self.update_str("GIT_STATUS_FILE", status_file);
        match info.time {
            Some((secs, offm)) => {
                let offsec: i64 = (offm as i64) * 60;
                let mut done: bool = false;
                proof {
                    vstd::arithmetic::div_mod::lemma_mod_multiples_basic(offm as int, 60);
                    assert(crate::date_time::minute_truncated(offsec as int) == offsec as int);
                }
                if -86340 <= offsec && offsec <= 86340 {
                    match crate::date_time::from_timestamp_offset(secs, offsec as i32) {
                        Ok(o) => {
                            let dt = DateTime::Local(o);
                            self.apply_date_strings(&dt);
                            proof {
                                assert(date_strings_from(old(self).map@, self.map@, o));
                            }
                            done = true;
                        },
                        Err(_) => {},
                    }
                }
                if !done {
                    match crate::date_time::from_timestamp_offset(secs, 0) {
                        Ok(o) => {
                            let dt = DateTime::Utc(o);
                            self.apply_date_strings(&dt);
                            proof {
                                assert(date_strings_from(old(self).map@, self.map@, o));
                            }
                        },
                        Err(_) => {},
                    }
                }
            },
            None => {},
        }
    }

    /// Apply what the embedded library reported, overriding the
    /// command-derived facts; the command answers only stand in for the
    /// branch when the library's head query failed, and for the tag
    /// always, which the library cannot answer.
    pub fn apply_git2(&mut self, info: &Git2Info, cmd_branch: &Option<String>, cmd_tag: &Option<
        String,
    >)
        ensures
            final(self).ci_type == old(self).ci_type,
            keys_frame(old(self).map@, final(self).map@),
            exists|mid: Seq<FactView>|
                {
                    &&& #[trigger] git2_ids_applied(
                        old(self).map@,
                        mid,
                        *info,
                        *cmd_branch,
                        *cmd_tag,
                    )
                    &&& git2_state_applied(mid, final(self).map@, *info)
                },
    {
        let ghost t0 = self.map@;
        self.apply_git2_ids(info, cmd_branch, cmd_tag);
        let ghost t1 = self.map@;
        self.apply_git2_state(info);
        proof {
            assert(git2_ids_applied(t0, t1, *info, *cmd_branch, *cmd_tag));
            assert(git2_state_applied(t1, self.map@, *info));
        }
    }
}

} // verus!


verus! {

/// What the identity half of the library's answers does to the table.
pub open spec fn git2_ids_applied(
    old_t: Seq<FactView>,
    new_t: Seq<FactView>,
    info: Git2Info,
    cmd_branch: Option<String>,
    cmd_tag: Option<String>,
) -> bool {
    &&& keys_frame(old_t, new_t)
    &&& val_of(new_t, "BRANCH"@) == upd_val(
        old_t,
        branch_choice(info.branch, cmd_branch),
        ConstType::Str,
        "BRANCH"@,
    )
    &&& val_of(new_t, "TAG"@) == upd_val(old_t, tag_choice(cmd_tag), ConstType::Str, "TAG"@)
    &&& (info.commit matches Some(c) ==> val_of(new_t, "COMMIT_HASH"@) == upd_val(
        old_t,
        c@,
        ConstType::Str,
        "COMMIT_HASH"@,
    ) && val_of(new_t, "SHORT_COMMIT"@) == upd_val(
        old_t,
        short_of(c@),
        ConstType::Str,
        "SHORT_COMMIT"@,
    ))
    &&& (info.commit is None ==> val_of(new_t, "COMMIT_HASH"@) == val_of(old_t, "COMMIT_HASH"@)
        && val_of(new_t, "SHORT_COMMIT"@) == val_of(old_t, "SHORT_COMMIT"@))
    &&& (info.author_email matches Some(e) ==> val_of(new_t, "COMMIT_EMAIL"@) == upd_val(
        old_t,
        e@,
        ConstType::Str,
        "COMMIT_EMAIL"@,
    ))
    &&& (info.author_email is None ==> val_of(new_t, "COMMIT_EMAIL"@) == val_of(
        old_t,
        "COMMIT_EMAIL"@,
    ))
    &&& (info.author_name matches Some(a) ==> val_of(new_t, "COMMIT_AUTHOR"@) == upd_val(
        old_t,
        a@,
        ConstType::Str,
        "COMMIT_AUTHOR"@,
    ))
    &&& (info.author_name is None ==> val_of(new_t, "COMMIT_AUTHOR"@) == val_of(
        old_t,
        "COMMIT_AUTHOR"@,
    ))
    &&& forall|k2: Seq<char>|
        {
            &&& k2 != "BRANCH"@
            &&& k2 != "TAG"@
            &&& k2 != "COMMIT_HASH"@
            &&& k2 != "SHORT_COMMIT"@
            &&& k2 != "COMMIT_EMAIL"@
            &&& k2 != "COMMIT_AUTHOR"@
        } ==> #[trigger] val_of(new_t, k2) == val_of(old_t, k2)
}

/// What the state half of the library's answers does to the table.
pub open spec fn git2_state_applied(
    old_t: Seq<FactView>,
    new_t: Seq<FactView>,
    info: Git2Info,
) -> bool {
    &&& keys_frame(old_t, new_t)
    &&& val_of(new_t, "GIT_CLEAN"@) == upd_val(
        old_t,
        bool_chars(crate::env::is_blank(status_file_of(info.status))),
        ConstType::Bool,
        "GIT_CLEAN"@,
    )
    &&& val_of(new_t, "GIT_STATUS_FILE"@) == upd_val(
        old_t,
        status_file_of(info.status),
        ConstType::Str,
        "GIT_STATUS_FILE"@,
    )
    &&& git2_date_facts(old_t, new_t, info.time)
    &&& forall|k2: Seq<char>|
        {
            &&& k2 != "GIT_CLEAN"@
            &&& k2 != "GIT_STATUS_FILE"@
            &&& k2 != "COMMIT_DATE"@
            &&& k2 != "COMMIT_DATE_2822"@
            &&& k2 != "COMMIT_DATE_3339"@
        } ==> #[trigger] val_of(new_t, k2) == val_of(old_t, k2)
}

} // verus!


verus! {

/// The fourteen repository facts with their fixed documentation and
/// their default values, before any query answer is applied.
pub open spec fn git_base_table(b: Seq<FactView>) -> bool {
    &&& b.len() == 14
    &&& distinct_keys(b)
    &&& val_of(b, "BRANCH"@) == Some(
        ConstValView { desc: BRANCH_DOC@, v: Seq::<char>::empty(), t: ConstType::Str },
    )
    &&& val_of(b, "TAG"@) == Some(
        ConstValView { desc: TAG_DOC@, v: Seq::<char>::empty(), t: ConstType::Str },
    )
    &&& val_of(b, "LAST_TAG"@) == Some(
        ConstValView { desc: LAST_TAG_DOC@, v: Seq::<char>::empty(), t: ConstType::Str },
    )
    &&& val_of(b, "COMMITS_SINCE_TAG"@) == Some(
        ConstValView { desc: COMMITS_SINCE_TAG_DOC@, v: "0"@, t: ConstType::Usize },
    )
    &&& val_of(b, "COMMIT_HASH"@) == Some(
        ConstValView { desc: COMMIT_HASH_DOC@, v: Seq::<char>::empty(), t: ConstType::Str },
    )
    &&& val_of(b, "SHORT_COMMIT"@) == Some(
        ConstValView { desc: SHORT_COMMIT_DOC@, v: Seq::<char>::empty(), t: ConstType::Str },
    )
    &&& val_of(b, "COMMIT_AUTHOR"@) == Some(
        ConstValView { desc: COMMIT_AUTHOR_DOC@, v: Seq::<char>::empty(), t: ConstType::Str },
    )
    &&& val_of(b, "COMMIT_EMAIL"@) == Some(
        ConstValView { desc: COMMIT_EMAIL_DOC@, v: Seq::<char>::empty(), t: ConstType::Str },
    )
    &&& val_of(b, "COMMIT_DATE"@) == Some(
        ConstValView { desc: COMMIT_DATE_DOC@, v: Seq::<char>::empty(), t: ConstType::Str },
    )
    &&& val_of(b, "COMMIT_DATE_2822"@) == Some(
        ConstValView { desc: COMMIT_DATE_2822_DOC@, v: Seq::<char>::empty(), t: ConstType::Str },
    )
    &&& val_of(b, "COMMIT_DATE_3339"@) == Some(
        ConstValView { desc: COMMIT_DATE_3339_DOC@, v: Seq::<char>::empty(), t: ConstType::Str },
    )
    &&& val_of(b, "COMMIT_TIMESTAMP"@) == Some(
        ConstValView { desc: COMMIT_TIMESTAMP_DOC@, v: Seq::<char>::empty(), t: ConstType::Str },
    )
    &&& val_of(b, "GIT_CLEAN"@) == Some(
        ConstValView { desc: GIT_CLEAN_DOC@, v: "true"@, t: ConstType::Bool },
    )
    &&& val_of(b, "GIT_STATUS_FILE"@) == Some(
        ConstValView { desc: GIT_STATUS_FILE_DOC@, v: Seq::<char>::empty(), t: ConstType::Str },
    )
}

/// The command branch answer written over the table, when there is
/// one.
pub open spec fn branch_cmd_updated(
    old_t: Seq<FactView>,
    new_t: Seq<FactView>,
    b: Option<String>,
) -> bool {
    match b {
        Some(x) => table_updated(old_t, new_t, "BRANCH"@, x@, ConstType::Str),
        None => new_t == old_t,
    }
}

/// The command tag answer written over the table, when there is one.
pub open spec fn tag_cmd_updated(
    old_t: Seq<FactView>,
    new_t: Seq<FactView>,
    t: Option<String>,
) -> bool {
    match t {
        Some(x) => table_updated(old_t, new_t, "TAG"@, x@, ConstType::Str),
        None => new_t == old_t,
    }
}

/// The describe-derived facts written over the table: the resolved
/// nearest tag, and the commit distance when the describe string
/// parses with a suffix; a failed parse keeps the plain tag and no
/// distance, and without a nearest tag nothing changes.
pub open spec fn describe_updated(
    old_t: Seq<FactView>,
    new_t: Seq<FactView>,
    last_tag: Option<String>,
    describe: Option<String>,
) -> bool {
    match last_tag {
        None => new_t == old_t,
        Some(tag) => {
            let res = match describe {
                Some(d) => spec_parse_describe(tag@, d@),
                None => None,
            };
            match res {
                Some(v) => {
                    &&& keys_frame(old_t, new_t)
                    &&& val_of(new_t, "LAST_TAG"@) == upd_val(
                        old_t,
                        v.0,
                        ConstType::Str,
                        "LAST_TAG"@,
                    )
                    &&& match v.1 {
                        Some(n) => val_of(new_t, "COMMITS_SINCE_TAG"@) == upd_val(
                            old_t,
                            dec_chars(n),
                            ConstType::Usize,
                            "COMMITS_SINCE_TAG"@,
                        ),
                        None => val_of(new_t, "COMMITS_SINCE_TAG"@) == val_of(
                            old_t,
                            "COMMITS_SINCE_TAG"@,
                        ),
                    }
                    &&& forall|k2: Seq<char>|
                        (k2 != "LAST_TAG"@ && k2 != "COMMITS_SINCE_TAG"@) ==> #[trigger] val_of(
                            new_t,
                            k2,
                        ) == val_of(old_t, k2)
                },
                None => table_updated(old_t, new_t, "LAST_TAG"@, tag@, ConstType::Str),
            }
        },
    }
}

/// The overlay a repository answer puts over the command-derived
/// facts: the library's identity and state facts, the command branch
/// and tag double-check, the describe facts, and the
/// continuous-integration override last.
pub open spec fn git2_chain(
    t1: Seq<FactView>,
    final_t: Seq<FactView>,
    info: Git2Info,
    cmd: CommandQueries,
    env: Seq<crate::fact::EnvEntryView>,
    ci: CiType,
) -> bool {
    exists|t2: Seq<FactView>|
        {
            &&& #[trigger] git2_ids_applied(t1, t2, info, cmd.branch, cmd.current_tag)
            &&& exists|t3: Seq<FactView>|
                {
                    &&& #[trigger] git2_state_applied(t2, t3, info)
                    &&& exists|t4: Seq<FactView>|
                        {
                            &&& #[trigger] branch_cmd_updated(t3, t4, cmd.branch)
                            &&& exists|t5: Seq<FactView>|
                                {
                                    &&& #[trigger] tag_cmd_updated(t4, t5, cmd.current_tag)
                                    &&& exists|t6: Seq<FactView>|
                                        {
                                            &&& #[trigger] describe_updated(
                                                t5,
                                                t6,
                                                cmd.last_tag,
                                                cmd.describe,
                                            )
                                            &&& ci_override_applied(t6, final_t, ci, env)
                                        }
                                }
                        }
                }
        }
}

/// How one run relates the final repository table to the base table:
/// the command answers are applied first; then either no repository
/// was found and the table stands as it is, or some repository answer
/// exists whose overlay chain produced the final table.
pub open spec fn git_facts_resolved(
    base: Seq<FactView>,
    final_t: Seq<FactView>,
    cmd: CommandQueries,
    env: Seq<crate::fact::EnvEntryView>,
    ci: CiType,
) -> bool {
    exists|t1: Seq<FactView>|
        {
            &&& #[trigger] head_facts_applied(base, t1, cmd.head, cmd.git_clean, cmd.status_file@)
            &&& (final_t == t1 || exists|info: Git2Info|
                #[trigger] git2_chain(t1, final_t, info, cmd, env, ci))
        }
}

/// A repository fact table of one run: the base table resolved under
/// the query answers.
pub open spec fn git_fact_table(
    g: Seq<FactView>,
    cmd: CommandQueries,
    env: Seq<crate::fact::EnvEntryView>,
    ci: CiType,
) -> bool {
    exists|base: Seq<FactView>|
        #[trigger] git_base_table(base) && git_facts_resolved(base, g, cmd, env, ci)
}

} // verus!

verus! {

impl Git {
    /// Resolve every repository fact of one run: the command answers
    /// first, the embedded library's answers over them, the
    /// describe-derived facts, and the continuous-integration override
    /// last. Fails only when no repository is found, leaving the
    /// command-derived facts standing.
    #[verifier::rlimit(100)]
    pub fn init(&mut self, path: &str, cmd: &CommandQueries, std_env: &EnvSnapshot) -> (r:
        SdResult<()>)
        ensures
            final(self).ci_type == old(self).ci_type,
            keys_frame(old(self).map@, final(self).map@),
            git_facts_resolved(
                old(self).map@,
                final(self).map@,
                *cmd,
                std_env@,
                old(self).ci_type,
            ),
            r is Err ==> head_facts_applied(
                old(self).map@,
                final(self).map@,
                cmd.head,
                cmd.git_clean,
                cmd.status_file@,
            ),
            r is Ok ==> {
                &&& (spec_ci_branch(old(self).ci_type, std_env@) matches Some(b) ==> (val_of(
                    final(self).map@,
                    "BRANCH"@,
                ) matches Some(f) ==> f.v == b && f.t == ConstType::Str))
                &&& (spec_ci_tag(old(self).ci_type, std_env@) matches Some(t) ==> {
                    &&& (val_of(final(self).map@, "TAG"@) matches Some(f) ==> f.v == t && f.t
                        == ConstType::Str)
                    &&& (val_of(final(self).map@, "LAST_TAG"@) matches Some(f2) ==> f2.v == t
                        && f2.t == ConstType::Str)
                })
            },
    {
        proof {
            lemma_key_literals_distinct();
        }
        let ghost base = self.map@;
        self.init_git(&cmd.head, cmd.git_clean, cmd.status_file.clone());
        let ghost t1 = self.map@;
        let info = gather_git2(path);
        let g2 = match info {
            None => {
                proof {
                    assert(git_facts_resolved(
                        base,
                        self.map@,
                        *cmd,
                        std_env@,
                        old(self).ci_type,
                    ));
                }
                return Err(ShadowError::new(String::from_str("repository not found")));
            },
            Some(g) => g,
        };
        self.apply_git2(&g2, &cmd.branch, &cmd.current_tag);
        let ghost t3 = self.map@;
        match &cmd.branch {
            Some(x) => {
                self.update_str("BRANCH", x.clone());
            },
            None => {},
        }
        let ghost t4 = self.map@;
        match &cmd.current_tag {
            Some(x) => {
                self.update_str("TAG", x.clone());
            },
            None => {},
        }
        let ghost t5 = self.map@;
        let parts = describe_result(&cmd.last_tag, &cmd.describe);
        match parts.0 {
            Some(x) => {
                self.update_str("LAST_TAG", x);
            },
            None => {},
        }
        let ghost m6 = self.map@;
        match parts.1 {
            Some(x) => {
                self.update_usize("COMMITS_SINCE_TAG", x);
            },
            None => {},
        }
        let ghost t6 = self.map@;
        self.ci_branch_tag(std_env);
        proof {
            let mid = choose|mid: Seq<FactView>|
                {
                    &&& #[trigger] git2_ids_applied(t1, mid, g2, cmd.branch, cmd.current_tag)
                    &&& git2_state_applied(mid, t3, g2)
                };
            assert(branch_cmd_updated(t3, t4, cmd.branch));
            assert(tag_cmd_updated(t4, t5, cmd.current_tag));
            match &cmd.last_tag {
                None => {
                    assert(t6 == t5);
                    assert(describe_updated(t5, t6, cmd.last_tag, cmd.describe));
                },
                Some(tag) => {
                    let res = match &cmd.describe {
                        Some(d) => spec_parse_describe(tag@, d@),
                        None => None,
                    };
                    match res {
                        Some(v) => {
                            assert(table_updated(t5, m6, "LAST_TAG"@, v.0, ConstType::Str));
                            match v.1 {
                                Some(n) => {
                                    assert(table_updated(
                                        m6,
                                        t6,
                                        "COMMITS_SINCE_TAG"@,
                                        dec_chars(n),
                                        ConstType::Usize,
                                    ));
                                },
                                None => {
                                    assert(t6 == m6);
                                },
                            }
                            assert(describe_updated(t5, t6, cmd.last_tag, cmd.describe));
                        },
                        None => {
                            assert(table_updated(t5, t6, "LAST_TAG"@, tag@, ConstType::Str));
                            assert(describe_updated(t5, t6, cmd.last_tag, cmd.describe));
                        },
                    }
                },
            }
            assert(describe_updated(t5, t6, cmd.last_tag, cmd.describe));
            assert(ci_override_applied(t6, self.map@, old(self).ci_type, std_env@));
            assert(git2_chain(t1, self.map@, g2, *cmd, std_env@, old(self).ci_type));
            assert(git_facts_resolved(base, self.map@, *cmd, std_env@, old(self).ci_type));
            match spec_ci_branch(old(self).ci_type, std_env@) {
                Some(b) => {
                    assert(val_of(self.map@, "BRANCH"@) == upd_val(
                        t6,
                        b,
                        ConstType::Str,
                        "BRANCH"@,
                    ));
                },
                None => {},
            }
            match spec_ci_tag(old(self).ci_type, std_env@) {
                Some(t) => {
                    assert(val_of(self.map@, "TAG"@) == upd_val(t6, t, ConstType::Str, "TAG"@));
                    assert(val_of(self.map@, "LAST_TAG"@) == upd_val(
                        t6,
                        t,
                        ConstType::Str,
                        "LAST_TAG"@,
                    ));
                },
                None => {},
            }
        }
        Ok(())
    }
}

/// Build the repository fact table of one resolution run: fourteen
/// facts with their fixed documentation, resolved from the query
/// answers; a missing repository degrades the facts, never aborts.
pub fn new_git(path: &str, ci: CiType, std_env: &EnvSnapshot, cmd: &CommandQueries) -> (r:
    FactTable)
    ensures
        distinct_keys(r@),
        r@.len() == 14,
        git_fact_table(r@, *cmd, std_env@, ci),
            val_of(r@, "BRANCH"@) matches Some(f0) && f0.desc == BRANCH_DOC@,
            val_of(r@, "TAG"@) matches Some(f1) && f1.desc == TAG_DOC@,
            val_of(r@, "LAST_TAG"@) matches Some(f2) && f2.desc == LAST_TAG_DOC@,
            val_of(r@, "COMMITS_SINCE_TAG"@) matches Some(f3) && f3.desc == COMMITS_SINCE_TAG_DOC@,
            val_of(r@, "COMMIT_HASH"@) matches Some(f4) && f4.desc == COMMIT_HASH_DOC@,
            val_of(r@, "SHORT_COMMIT"@) matches Some(f5) && f5.desc == SHORT_COMMIT_DOC@,
            val_of(r@, "COMMIT_AUTHOR"@) matches Some(f6) && f6.desc == COMMIT_AUTHOR_DOC@,
            val_of(r@, "COMMIT_EMAIL"@) matches Some(f7) && f7.desc == COMMIT_EMAIL_DOC@,
            val_of(r@, "COMMIT_DATE"@) matches Some(f8) && f8.desc == COMMIT_DATE_DOC@,
            val_of(r@, "COMMIT_DATE_2822"@) matches Some(f9) && f9.desc == COMMIT_DATE_2822_DOC@,
            val_of(r@, "COMMIT_DATE_3339"@) matches Some(f10) && f10.desc == COMMIT_DATE_3339_DOC@,
            val_of(r@, "COMMIT_TIMESTAMP"@) matches Some(f11) && f11.desc == COMMIT_TIMESTAMP_DOC@,
            val_of(r@, "GIT_CLEAN"@) matches Some(f12) && f12.desc == GIT_CLEAN_DOC@,
            val_of(r@, "GIT_STATUS_FILE"@) matches Some(f13) && f13.desc == GIT_STATUS_FILE_DOC@,
{
    proof {
        lemma_key_literals_distinct();
    }
    let mut git = Git { map: FactTable::new(), ci_type: ci };
    git.map.insert("BRANCH", ConstVal::new(BRANCH_DOC));
    git.map.insert("TAG", ConstVal::new(TAG_DOC));
    git.map.insert("LAST_TAG", ConstVal::new(LAST_TAG_DOC));
    git.map.insert("COMMITS_SINCE_TAG", ConstVal::new_usize(COMMITS_SINCE_TAG_DOC));
    git.map.insert("COMMIT_HASH", ConstVal::new(COMMIT_HASH_DOC));
    git.map.insert("SHORT_COMMIT", ConstVal::new(SHORT_COMMIT_DOC));
    git.map.insert("COMMIT_AUTHOR", ConstVal::new(COMMIT_AUTHOR_DOC));
    git.map.insert("COMMIT_EMAIL", ConstVal::new(COMMIT_EMAIL_DOC));
    git.map.insert("COMMIT_DATE", ConstVal::new(COMMIT_DATE_DOC));
    git.map.insert("COMMIT_DATE_2822", ConstVal::new(COMMIT_DATE_2822_DOC));
    git.map.insert("COMMIT_DATE_3339", ConstVal::new(COMMIT_DATE_3339_DOC));
    git.map.insert("COMMIT_TIMESTAMP", ConstVal::new(COMMIT_TIMESTAMP_DOC));
    git.map.insert("GIT_CLEAN", ConstVal::new_bool(GIT_CLEAN_DOC));
    git.map.insert("GIT_STATUS_FILE", ConstVal::new(GIT_STATUS_FILE_DOC));
    let ghost base = git.map@;
    proof {
        assert(val_of(git.map@, "BRANCH"@) == Some(
            ConstValView { desc: BRANCH_DOC@, v: Seq::<char>::empty(), t: ConstType::Str },
        ));
        assert(val_of(git.map@, "TAG"@) == Some(
            ConstValView { desc: TAG_DOC@, v: Seq::<char>::empty(), t: ConstType::Str },
        ));
        assert(val_of(git.map@, "LAST_TAG"@) == Some(
            ConstValView { desc: LAST_TAG_DOC@, v: Seq::<char>::empty(), t: ConstType::Str },
        ));
        assert(val_of(git.map@, "COMMITS_SINCE_TAG"@) == Some(
            ConstValView { desc: COMMITS_SINCE_TAG_DOC@, v: "0"@, t: ConstType::Usize },
        ));
        assert(val_of(git.map@, "COMMIT_HASH"@) == Some(
            ConstValView { desc: COMMIT_HASH_DOC@, v: Seq::<char>::empty(), t: ConstType::Str },
        ));
        assert(val_of(git.map@, "SHORT_COMMIT"@) == Some(
            ConstValView { desc: SHORT_COMMIT_DOC@, v: Seq::<char>::empty(), t: ConstType::Str },
        ));
        assert(val_of(git.map@, "COMMIT_AUTHOR"@) == Some(
            ConstValView { desc: COMMIT_AUTHOR_DOC@, v: Seq::<char>::empty(), t: ConstType::Str },
        ));
        assert(val_of(git.map@, "COMMIT_EMAIL"@) == Some(
            ConstValView { desc: COMMIT_EMAIL_DOC@, v: Seq::<char>::empty(), t: ConstType::Str },
        ));
        assert(val_of(git.map@, "COMMIT_DATE"@) == Some(
            ConstValView { desc: COMMIT_DATE_DOC@, v: Seq::<char>::empty(), t: ConstType::Str },
        ));
        assert(val_of(git.map@, "COMMIT_DATE_2822"@) == Some(
            ConstValView { desc: COMMIT_DATE_2822_DOC@, v: Seq::<char>::empty(), t: ConstType::Str },
        ));
        assert(val_of(git.map@, "COMMIT_DATE_3339"@) == Some(
            ConstValView { desc: COMMIT_DATE_3339_DOC@, v: Seq::<char>::empty(), t: ConstType::Str },
        ));
        assert(val_of(git.map@, "COMMIT_TIMESTAMP"@) == Some(
            ConstValView { desc: COMMIT_TIMESTAMP_DOC@, v: Seq::<char>::empty(), t: ConstType::Str },
        ));
        assert(val_of(git.map@, "GIT_CLEAN"@) == Some(
            ConstValView { desc: GIT_CLEAN_DOC@, v: "true"@, t: ConstType::Bool },
        ));
        assert(val_of(git.map@, "GIT_STATUS_FILE"@) == Some(
            ConstValView { desc: GIT_STATUS_FILE_DOC@, v: Seq::<char>::empty(), t: ConstType::Str },
        ));
        assert(git_base_table(base));
    }
    match git.init(path, cmd, std_env) {
        Ok(()) => {},
        Err(_) => {},
    }
    proof {
        assert(git_facts_resolved(base, git.map@, *cmd, std_env@, ci));
        assert(git_fact_table(git.map@, *cmd, std_env@, ci));
    }
    git.map
}

/// The current branch, read through the embedded library; empty when
/// the repository or its head cannot be read.
pub fn branch() -> String {
    match crate::repo::repo_discover(".") {
        Some(repo) => match crate::repo::repo_head_branch(&repo) {
            Some(b) => b,
            None => String::new(),
        },
        None => String::new(),
    }
}

/// The tag the current commit carries, from the tag query's answer;
/// empty when the query failed or found none.
pub fn tag(current_tag: Option<String>) -> (r: String)
    ensures
        r@ == tag_choice(current_tag),
{
    match current_tag {
        Some(t) => t,
        None => String::new(),
    }
}

impl Git {
    /// The formatted changed-file listing of a repository, through the
    /// embedded library; empty when the status cannot be read. Whatever
    /// the repository answers, the result is the correctly formatted
    /// listing of some status answer.
    pub fn git2_dirty_stage(repo: &git2::Repository) -> (r: String)
        ensures
            exists|entries: Option<Vec<(Option<String>, u32)>>|
                r@ == #[trigger] status_file_of(entries),
    {
        match crate::repo::repo_status_entries(repo) {
            Some(entries) => {
                let (d, s) = crate::repo::classify_status_entries(&entries);
                let out = filter_git_dirty_stage(d, s);
                proof {
                    assert(out@ == status_file_of(Some(entries)));
                }
                out
            },
            None => {
                let out = String::new();
                proof {
                    assert(out@ =~= Seq::<char>::empty());
                    assert(out@ == status_file_of(None::<Vec<(Option<String>, u32)>>));
                }
                out
            },
        }
    }
}

/// Whether the working tree is clean: no changed files are listed. A
/// missing repository counts as clean.
pub fn git_clean() -> bool {
    match crate::repo::repo_discover(".") {
        Some(repo) => {
            let listing = Git::git2_dirty_stage(&repo);
            crate::env::is_blank_str(&listing)
        },
        None => true,
    }
}

/// The formatted changed-file listing of the working tree; empty when
/// no repository is found. The result is always the correctly
/// formatted listing of some status answer.
pub fn git_status_file() -> (r: String)
    ensures
        exists|entries: Option<Vec<(Option<String>, u32)>>|
            r@ == #[trigger] status_file_of(entries),
{
    match crate::repo::repo_discover(".") {
        Some(repo) => Git::git2_dirty_stage(&repo),
        None => {
            let out = String::new();
            proof {
                assert(out@ =~= Seq::<char>::empty());
                assert(out@ == status_file_of(None::<Vec<(Option<String>, u32)>>));
            }
            out
        },
    }
}

} // verus!

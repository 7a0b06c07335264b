//! The fact resolver: gathers the environment, project and repository
//! facts into one ordered table, applies the deny set, and emits the
//! artifact text.

use vstd::prelude::*;

use crate::channel::BuildRustChannel;
use crate::ci::{try_ci, CiType};
use crate::date_time::{now_date_time, source_epoch_ok, DateTime};
use crate::env::{new_project, new_system_env, project_table, system_env_table, ToolOutputs};
use crate::fact::{
    distinct_keys, env_val, has_key, val_of, EnvSnapshot, Fact, FactTable, FactView,
};
use crate::gen::{decls_text, gen_decls, gen_print_fn, header_text, print_fn_text, tag_flavoured};
use crate::gen_const::{
    clap_long_version_branch_const, clap_long_version_tag_const, const_text, version_branch_const,
    version_tag_const, CLAP_LONG_VERSION_BRANCH_CONST_BODY, CLAP_LONG_VERSION_BRANCH_CONST_DOC,
    CLAP_LONG_VERSION_TAG_CONST_BODY, CLAP_LONG_VERSION_TAG_CONST_DOC, VERSION_BRANCH_CONST_BODY,
    VERSION_BRANCH_CONST_DOC, VERSION_TAG_CONST_BODY, VERSION_TAG_CONST_DOC,
};
use crate::git::{git_fact_table, new_git, CommandQueries};
use crate::strutil::str_eq;

verus! {

/// The resolved facts of one run, with the detected environment and
/// the keys to withhold from generation.
#[derive(Debug, Clone)]
pub struct Shadow {
    /// The merged fact table, in declaration order.
    pub map: FactTable,
    /// The continuous-integration environment detected for this run.
    pub ci_type: CiType,
    /// The keys excluded from the generated artifact.
    pub deny: Vec<String>,
}

/// The keys withheld from generation when the caller names none: the
/// raw package metadata, which is large and repeats the manifest.
pub fn default_deny() -> (r: Vec<String>)
    ensures
        r@.len() == 1,
        r@[0]@ == "CARGO_METADATA"@,
{
    let mut v: Vec<String> = Vec::new();
    v.push(String::from_str("CARGO_METADATA"));
    v
}

/// Append every entry of `other` whose key is not yet present.
fn merge_tables(base: &mut FactTable, other: FactTable)
    ensures
        final(base)@.len() >= old(base)@.len(),
        distinct_keys(old(base)@) ==> distinct_keys(final(base)@),
        forall|k: Seq<char>|
            #[trigger] val_of(final(base)@, k) == (if has_key(old(base)@, k) {
                val_of(old(base)@, k)
            } else {
                val_of(other@, k)
            }),
{
    let mut rest = other;
    let ghost mut processed: int = 0;
    let ghost full = rest@;
    proof {
        assert(rest@ =~= full.subrange(0, full.len() as int));
    }
    while rest.entries.len() > 0
        invariant
            0 <= processed <= full.len(),
            rest@ =~= full.subrange(processed, full.len() as int),
            base@.len() >= old(base)@.len(),
            distinct_keys(old(base)@) ==> distinct_keys(base@),
            forall|k: Seq<char>|
                #[trigger] val_of(base@, k) == (if has_key(old(base)@, k) {
                    val_of(old(base)@, k)
                } else {
                    val_of(full.subrange(0, processed), k)
                }),
        decreases rest@.len(),
    {
        let ghost p = processed;
        let ghost prev_rest = rest@;
        let f = rest.entries.remove(0);
        let ghost fv = f@;
        proof {
            assert(fv == prev_rest[0]);
            assert(fv == full[p]);
            assert(rest@ =~= prev_rest.subrange(1, prev_rest.len() as int));
            assert(rest@ =~= full.subrange(p + 1, full.len() as int));
        }
        let Fact { key, val } = f;
        let ghost prev = base@;
        base.insert(key.as_str(), val);
        proof {
            processed = p + 1;
            let pre = full.subrange(0, p);
            let cur = full.subrange(0, processed);
            assert(cur =~= pre.push(full[p]));
            crate::fact::lemma_val_of_push(pre, full[p]);
            assert(fv.key == key@);
            assert forall|k: Seq<char>|
                #[trigger] val_of(base@, k) == (if has_key(old(base)@, k) {
                    val_of(old(base)@, k)
                } else {
                    val_of(cur, k)
                }) by {
                if k == key@ {
                    assert(val_of(cur, k) == (if has_key(pre, k) {
                        val_of(pre, k)
                    } else {
                        Some(fv.val)
                    }));
                } else {
                    assert(val_of(base@, k) == val_of(prev, k));
                    assert(val_of(cur, k) == val_of(pre, k));
                }
            }
        }
    }
    proof {
        assert(full.subrange(0, processed) =~= full);
        assert(processed == full.len()) by {
            assert(rest@.len() == 0);
        }
    }
}

/// Whether `k` is one of the denied keys.
pub open spec fn denied(deny: Seq<String>, k: Seq<char>) -> bool {
    exists|i: int| 0 <= i < deny.len() && (#[trigger] deny[i])@ == k
}

/// The table without its denied entries, in the original order.
pub open spec fn kept(t: Seq<FactView>, deny: Seq<String>) -> Seq<FactView>
    decreases t.len(),
{
    if t.len() == 0 {
        Seq::empty()
    } else {
        let rest = kept(t.drop_last(), deny);
        if denied(deny, t.last().key) {
            rest
        } else {
            rest.push(t.last())
        }
    }
}

/// Every entry that survives the deny filter stands in the original
/// table's order and carries an allowed key.
pub proof fn lemma_kept_entries_allowed(t: Seq<FactView>, deny: Seq<String>)
    ensures
        forall|j: int|
            0 <= j < kept(t, deny).len() ==> !denied(deny, (#[trigger] kept(t, deny)[j]).key),
    decreases t.len(),
{
    if t.len() > 0 {
        lemma_kept_entries_allowed(t.drop_last(), deny);
    }
}

/// If a value is recorded for `k`, some entry carries `k`.
pub proof fn lemma_has_key_index(s: Seq<FactView>, k: Seq<char>)
    requires
        has_key(s, k),
    ensures
        exists|j: int| 0 <= j < s.len() && (#[trigger] s[j]).key == k,
    decreases s.len(),
{
    if s.len() > 0 {
        if s[0].key == k {
        } else {
            let tail = s.subrange(1, s.len() as int);
            lemma_has_key_index(tail, k);
            let j = choose|j: int| 0 <= j < tail.len() && (#[trigger] tail[j]).key == k;
            assert(s[j + 1].key == k);
        }
    }
}

/// A key of the deny set never appears in the filtered table, whatever
/// the resolution produced for it.
pub proof fn lemma_deny_set_exclusion(t: Seq<FactView>, deny: Seq<String>, k: Seq<char>)
    requires
        denied(deny, k),
    ensures
        !has_key(kept(t, deny), k),
{
    lemma_kept_entries_allowed(t, deny);
    if has_key(kept(t, deny), k) {
        lemma_has_key_index(kept(t, deny), k);
    }
}

/// Remove the denied entries from a table, keeping the order.
pub fn apply_deny(t: &FactTable, deny: &Vec<String>) -> (r: FactTable)
    ensures
        r@ == kept(t@, deny@),
{
    let mut out = FactTable { entries: Vec::new() };
    let n: usize = t.entries.len();
    let mut i: usize = 0;
    proof {
        assert(out@ =~= kept(t@.subrange(0, 0), deny@));
    }
    while i < n
        invariant
            i <= n,
            n == t.entries@.len(),
            t@.len() == n,
            out@ == kept(t@.subrange(0, i as int), deny@),
        decreases n - i,
    {
        let key = &t.entries[i].key;
        let mut hit: bool = false;
        let m: usize = deny.len();
        let mut j: usize = 0;
        while j < m
            invariant
                j <= m,
                m == deny@.len(),
                hit == exists|x: int| 0 <= x < j && (#[trigger] deny@[x])@ == key@,
            decreases m - j,
        {
            if str_eq(deny[j].as_str(), key.as_str()) {
                hit = true;
            }
            j = j + 1;
        }
        if !hit {
            out.entries.push(t.entries[i].clone_fact());
        }
        i = i + 1;
        proof {
            let cur = t@.subrange(0, i as int);
            assert(cur.drop_last() =~= t@.subrange(0, i - 1));
            assert(cur.last() == t@[i - 1]);
            assert(hit == denied(deny@, t@[i - 1].key));
            assert(out@ =~= kept(cur, deny@));
        }
    }
    proof {
        assert(t@.subrange(0, n as int) =~= t@);
    }
    out
}

impl Fact {
    /// A copy of the entry carrying the same key and value.
    pub fn clone_fact(&self) -> (r: Fact)
        ensures
            r@ == self@,
    {
        Fact {
            key: self.key.clone(),
            val: crate::fact::ConstVal {
                desc: self.val.desc.clone(),
                v: self.val.v.clone(),
                t: self.val.t,
            },
        }
    }
}

/// The precedence of the merged fact table: for every key, the
/// environment table answers first, then the project table, then the
/// repository table.
pub open spec fn merged_precedence(
    m: Seq<FactView>,
    e: Seq<FactView>,
    p: Seq<FactView>,
    g: Seq<FactView>,
) -> bool {
    forall|k: Seq<char>|
        #[trigger] val_of(m, k) == (if has_key(e, k) {
            val_of(e, k)
        } else if has_key(p, k) {
            val_of(p, k)
        } else {
            val_of(g, k)
        })
}

impl Shadow {
    /// Resolve one run's facts: the environment facts first, the
    /// project facts over them, the repository facts last, later
    /// sources never displacing an earlier key. The given deny set is
    /// applied at generation, not here, so dependent computations see
    /// every fact. The table is exactly the merge, under that
    /// precedence, of an environment table, a project table for some
    /// well-formed build instant (pinned by the reproducible-build
    /// variable when it is set), and a repository table resolved from
    /// the query answers.
    pub fn new(
        path: &str,
        std_env: &EnvSnapshot,
        tools: &ToolOutputs,
        cmd: &CommandQueries,
        build_os: String,
        deny: Vec<String>,
    ) -> (r: Shadow)
        requires
            source_epoch_ok(std_env@),
        ensures
            distinct_keys(r.map@),
            r.ci_type == crate::ci::spec_ci_type(std_env@),
            r.deny@ == deny@,
            exists|e: Seq<FactView>|
                #[trigger] system_env_table(e, std_env@, *tools, build_os@) && (exists|
                    p: Seq<FactView>,
                    time: DateTime,
                    ch: crate::channel::BuildRustChannel,
                |
                    {
                        &&& #[trigger] project_table(p, std_env@, time, ch)
                        &&& time.wf()
                        &&& (env_val(std_env@, "SOURCE_DATE_EPOCH"@) matches Some(v)
                            ==> time matches DateTime::Utc(o) && Some(o.unix as int)
                            == crate::strutil::spec_parse_i64(v))
                        &&& (exists|g: Seq<FactView>|
                            #[trigger] git_fact_table(
                                g,
                                *cmd,
                                std_env@,
                                crate::ci::spec_ci_type(std_env@),
                            ) && merged_precedence(r.map@, e, p, g))
                    }),
    {
        let ci = try_ci(std_env);
        let time = now_date_time(std_env);
        let channel = crate::channel::build_channel();
        let mut map = new_system_env(std_env, tools, build_os);
        let ghost et = map@;
        let project = new_project(std_env, &time, channel);
        let ghost pt = project@;
        merge_tables(&mut map, project);
        let ghost m1 = map@;
        let git = new_git(path, ci, std_env, cmd);
        let ghost gt = git@;
        merge_tables(&mut map, git);
        proof {
            assert forall|k: Seq<char>|
                #[trigger] val_of(map@, k) == (if has_key(et, k) {
                    val_of(et, k)
                } else if has_key(pt, k) {
                    val_of(pt, k)
                } else {
                    val_of(gt, k)
                }) by {
                if has_key(et, k) {
                } else {
                    if has_key(pt, k) {
                        assert(val_of(m1, k) == val_of(pt, k));
                    } else {
                        assert(val_of(m1, k) is None);
                    }
                }
            }
            assert(merged_precedence(map@, et, pt, gt));
            assert(project_table(pt, std_env@, time, channel));
            assert(git_fact_table(gt, *cmd, std_env@, crate::ci::spec_ci_type(std_env@)));
        }
        Shadow { map, ci_type: ci, deny }
    }

    /// The artifact text of this run's facts, under the injected
    /// generation time: the header, one declaration per fact outside
    /// the deny set, the two summary declarations in the flavour the
    /// tag fact selects, and the fact-printing procedure. Byte-for-byte
    /// a function of the table, the deny set and the injected time.
    pub fn gen(&self, now: &DateTime) -> (r: String)
        requires
            now.wf(),
        ensures
            r@ == artifact_text(self.map@, self.deny@, *now),
    {
        let filtered = apply_deny(&self.map, &self.deny);
        let mut out = String::from_str(
            "// Build provenance facts, resolved for this build.\n// resolved at: ",
        );
        out.append(now.to_rfc2822().as_str());
        out.append("\n\n");
        out.append(gen_decls(&filtered).as_str());
        let found = filtered.find_key("TAG");
        let tagged = match found {
            Some(i) => {
                proof {
                    crate::fact::lemma_val_of_first_index(filtered@, "TAG"@, i as int);
                }
                filtered.entries[i].val.v.unicode_len() > 0
            },
            None => {
                proof {
                    crate::fact::lemma_val_of_absent(filtered@, "TAG"@);
                }
                false
            },
        };
        if tagged {
            out.append(version_tag_const().as_str());
            out.append(clap_long_version_tag_const().as_str());
        } else {
            out.append(version_branch_const().as_str());
            out.append(clap_long_version_branch_const().as_str());
        }
        out.append(gen_print_fn(&filtered).as_str());
        out
    }
}

/// The whole artifact text: the header with the injected time, the
/// declarations of the table outside the deny set, the two summary
/// declarations in the tag or branch flavour, and the fact-printing
/// procedure.
pub open spec fn artifact_text(t: Seq<FactView>, deny: Seq<String>, now: DateTime) -> Seq<char> {
    let filtered = kept(t, deny);
    header_text(now) + decls_text(filtered) + (if tag_flavoured(filtered) {
        const_text(VERSION_TAG_CONST_DOC@, VERSION_TAG_CONST_BODY@) + const_text(
            CLAP_LONG_VERSION_TAG_CONST_DOC@,
            CLAP_LONG_VERSION_TAG_CONST_BODY@,
        )
    } else {
        const_text(VERSION_BRANCH_CONST_DOC@, VERSION_BRANCH_CONST_BODY@) + const_text(
            CLAP_LONG_VERSION_BRANCH_CONST_DOC@,
            CLAP_LONG_VERSION_BRANCH_CONST_BODY@,
        )
    }) + print_fn_text(filtered)
}

/// Generation is deterministic: two runs over the same fact table, the
/// same deny set and the same injected generation time produce
/// byte-identical artifacts.
pub proof fn lemma_deterministic_generation(
    t1: Seq<FactView>,
    t2: Seq<FactView>,
    d1: Seq<String>,
    d2: Seq<String>,
    n1: DateTime,
    n2: DateTime,
)
    requires
        t1 == t2,
        d1 == d2,
        n1 == n2,
    ensures
        artifact_text(t1, d1, n1) == artifact_text(t2, d2, n2),
{
}

} // verus!

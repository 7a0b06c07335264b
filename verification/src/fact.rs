//! The fact model: typed fact values, the ordered fact table that one
//! resolution run produces, and the immutable build-environment snapshot
//! the resolver reads from.

use vstd::prelude::*;

use crate::strutil::{
    chars_to_string, dec_chars, dec_chars_signed, i64_to_chars, str_eq, u64_to_chars,
};

verus! {

/// Kinds of values a resolved build fact can carry.
///
/// The kind of a fact is fixed per key and decides how the artifact
/// generator encodes the value.
#[derive(Clone, Copy, PartialEq, Eq, Structural, Debug)]
pub enum ConstType {
    /// A text value, emitted as a string literal.
    Str,
    /// A boolean value, emitted as `true` or `false`.
    Bool,
    /// A byte-sequence value, emitted as a byte-array literal.
    Slice,
    /// A non-negative integer value.
    Usize,
    /// A signed integer value.
    Int,
}

impl ConstType {
    /// The target-language type under which a fact of this kind is declared.
    pub fn decl_type(&self) -> (r: &'static str)
        ensures
            *self == ConstType::Str ==> r@ == "&str"@,
            *self == ConstType::Bool ==> r@ == "bool"@,
            *self == ConstType::Slice ==> r@ == "&[u8]"@,
            *self == ConstType::Usize ==> r@ == "usize"@,
            *self == ConstType::Int ==> r@ == "i64"@,
    {
        match self {
            ConstType::Str => "&str",
            ConstType::Bool => "bool",
            ConstType::Slice => "&[u8]",
            ConstType::Usize => "usize",
            ConstType::Int => "i64",
        }
    }
}

/// The mathematical value of a [`ConstVal`]: its description, serialised
/// value and kind, as character sequences.
#[verifier::ext_equal]
pub struct ConstValView {
    pub desc: Seq<char>,
    pub v: Seq<char>,
    pub t: ConstType,
}

/// A resolved fact value: a documentation string, the serialised value,
/// and the kind under which it is declared.
#[derive(Debug, Clone)]
pub struct ConstVal {
    /// User-facing documentation for the fact; never empty in a resolved
    /// table.
    pub desc: String,
    /// Serialised value of the fact.
    pub v: String,
    /// Kind of the fact.
    pub t: ConstType,
}

impl View for ConstVal {
    type V = ConstValView;

    open spec fn view(&self) -> ConstValView {
        ConstValView { desc: self.desc@, v: self.v@, t: self.t }
    }
}

impl ConstVal {
    /// A text fact with an empty, "undetermined" value.
    pub fn new(desc: &str) -> (r: ConstVal)
        ensures
            r@.desc == desc@,
            r@.v == Seq::<char>::empty(),
            r@.t == ConstType::Str,
    {
        let v = String::new();
        proof {
            assert(v@ =~= Seq::<char>::empty());
        }
        ConstVal { desc: String::from_str(desc), v, t: ConstType::Str }
    }

    /// A boolean fact, `true` until resolution says otherwise.
    pub fn new_bool(desc: &str) -> (r: ConstVal)
        ensures
            r@.desc == desc@,
            r@.v == "true"@,
            r@.t == ConstType::Bool,
    {
        ConstVal { desc: String::from_str(desc), v: String::from_str("true"), t: ConstType::Bool }
    }

    /// A byte-sequence fact with an empty value.
    pub fn new_slice(desc: &str) -> (r: ConstVal)
        ensures
            r@.desc == desc@,
            r@.v == Seq::<char>::empty(),
            r@.t == ConstType::Slice,
    {
        let v = String::new();
        proof {
            assert(v@ =~= Seq::<char>::empty());
        }
        ConstVal { desc: String::from_str(desc), v, t: ConstType::Slice }
    }

    /// A non-negative integer fact, zero until resolution says otherwise.
    pub fn new_usize(desc: &str) -> (r: ConstVal)
        ensures
            r@.desc == desc@,
            r@.v == "0"@,
            r@.t == ConstType::Usize,
    {
        ConstVal { desc: String::from_str(desc), v: String::from_str("0"), t: ConstType::Usize }
    }
}

/// The mathematical value of one fact-table entry.
#[verifier::ext_equal]
pub struct FactView {
    pub key: Seq<char>,
    pub val: ConstValView,
}

/// One fact-table entry: a stable key and its resolved value.
#[derive(Debug, Clone)]
pub struct Fact {
    pub key: String,
    pub val: ConstVal,
}

impl View for Fact {
    type V = FactView;

    open spec fn view(&self) -> FactView {
        FactView { key: self.key@, val: self.val@ }
    }
}

/// The value recorded for key `k` in `s`: the first entry with that key,
/// if any.
pub open spec fn val_of(s: Seq<FactView>, k: Seq<char>) -> Option<ConstValView>
    decreases s.len(),
{
    if s.len() == 0 {
        None
    } else if s[0].key == k {
        Some(s[0].val)
    } else {
        val_of(s.subrange(1, s.len() as int), k)
    }
}

/// Whether some entry of `s` has key `k`.
pub open spec fn has_key(s: Seq<FactView>, k: Seq<char>) -> bool {
    val_of(s, k) is Some
}

/// Whether the keys of `s` are pairwise distinct.
pub open spec fn distinct_keys(s: Seq<FactView>) -> bool {
    forall|i: int, j: int| 0 <= i < j < s.len() ==> (#[trigger] s[i].key) != (#[trigger] s[j].key)
}

/// The ordered fact table of one resolution run.
///
/// Entries keep their insertion order, which is the declaration order of
/// the generated artifact; keys are unique.
#[derive(Debug, Clone)]
pub struct FactTable {
    pub entries: Vec<Fact>,
}

impl View for FactTable {
    type V = Seq<FactView>;

    open spec fn view(&self) -> Seq<FactView> {
        self.entries@.map_values(|f: Fact| f@)
    }
}

impl FactTable {
    /// An empty table.
    pub fn new() -> (r: FactTable)
        ensures
            r@ == Seq::<FactView>::empty(),
            distinct_keys(r@),
    {
        let r = FactTable { entries: Vec::new() };
        proof {
            assert(r@ =~= Seq::<FactView>::empty());
        }
        r
    }

    /// The position of the first entry with key `k`, if any.
    pub fn find_key(&self, k: &str) -> (r: Option<usize>)
        ensures
            match r {
                Some(i) => {
                    &&& 0 <= i < self@.len()
                    &&& self@[i as int].key == k@
                    &&& forall|j: int| 0 <= j < i ==> self@[j].key != k@
                },
                None => forall|j: int| 0 <= j < self@.len() ==> self@[j].key != k@,
            },
    {
        let n: usize = self.entries.len();
        let mut i: usize = 0;
        while i < n
            invariant
                i <= n,
                n == self.entries@.len(),
                self@.len() == n,
                forall|j: int| 0 <= j < i ==> self@[j].key != k@,
            decreases n - i,
        {
            if str_eq(self.entries[i].key.as_str(), k) {
                return Some(i);
            }
            i = i + 1;
        }
        None
    }

    /// Whether the table holds an entry for `k`.
    pub fn contains_key(&self, k: &str) -> (r: bool)
        ensures
            r == has_key(self@, k@),
    {
        let found = self.find_key(k);
        proof {
            match found {
                Some(i) => lemma_val_of_first_index(self@, k@, i as int),
                None => lemma_val_of_absent(self@, k@),
            }
        }
        found.is_some()
    }
}

impl FactTable {
    /// Replace the value and kind stored at position `i`, keeping the key
    /// and the description.
    fn set_val_at(&mut self, i: usize, v: String, t: ConstType)
        requires
            i < old(self)@.len(),
        ensures
            final(self)@.len() == old(self)@.len(),
            forall|j: int|
                0 <= j < old(self)@.len() && j != i ==> final(self)@[j] == old(self)@[j],
            final(self)@[i as int].key == old(self)@[i as int].key,
            final(self)@[i as int].val.desc == old(self)@[i as int].val.desc,
            final(self)@[i as int].val.v == v@,
            final(self)@[i as int].val.t == t,
    {
        let f = self.entries.remove(i);
        let nf = Fact { key: f.key, val: ConstVal { desc: f.val.desc, v, t } };
        self.entries.insert(i, nf);
    }

    /// Record a text value for key `k`; a table without that key is left
    /// unchanged.
    pub fn update_str(&mut self, k: &str, v: String)
        ensures
            table_updated(old(self)@, final(self)@, k@, v@, ConstType::Str),
    {
        self.update_val(k, v, ConstType::Str);
    }

    /// Record a boolean value for key `k`.
    pub fn update_bool(&mut self, k: &str, v: bool)
        ensures
            table_updated(old(self)@, final(self)@, k@, bool_chars(v), ConstType::Bool),
    {
        let s = if v {
            String::from_str("true")
        } else {
            String::from_str("false")
        };
        self.update_val(k, s, ConstType::Bool);
    }

    /// Record a non-negative integer value for key `k`.
    pub fn update_usize(&mut self, k: &str, v: usize)
        ensures
            table_updated(old(self)@, final(self)@, k@, dec_chars(v as nat), ConstType::Usize),
    {
        let chars = u64_to_chars(v as u64);
        self.update_val(k, chars_to_string(&chars), ConstType::Usize);
    }

    /// Record a signed integer value for key `k`.
    pub fn update_int(&mut self, k: &str, v: i64)
        ensures
            table_updated(old(self)@, final(self)@, k@, dec_chars_signed(v as int), ConstType::Int),
    {
        let chars = i64_to_chars(v);
        self.update_val(k, chars_to_string(&chars), ConstType::Int);
    }

    /// Record a value for key `k`, keeping the key's declared kind; a
    /// table without that key is left unchanged.
    pub fn update_value(&mut self, k: &str, v: String)
        ensures
            table_value_updated(old(self)@, final(self)@, k@, v@),
    {
        let found = self.find_key(k);
        match found {
            Some(i) => {
                let t = self.entries[i].val.t;
                self.set_val_at(i, v, t);
                proof {
                    lemma_val_of_first_index(old(self)@, k@, i as int);
                    lemma_val_of_update(old(self)@, self@, i as int);
                }
            },
            None => {
                proof {
                    lemma_val_of_absent(self@, k@);
                }
            },
        }
    }

    /// Record a value of kind `t` for key `k`; a table without that key is
    /// left unchanged.
    pub fn update_val(&mut self, k: &str, v: String, t: ConstType)
        ensures
            table_updated(old(self)@, final(self)@, k@, v@, t),
    {
        let found = self.find_key(k);
        match found {
            Some(i) => {
                self.set_val_at(i, v, t);
                proof {
                    lemma_val_of_first_index(old(self)@, k@, i as int);
                    lemma_val_of_update(old(self)@, self@, i as int);
                }
            },
            None => {
                proof {
                    lemma_val_of_absent(self@, k@);
                }
            },
        }
    }

    /// Append a new entry, unless the key is already present.
    pub fn insert(&mut self, k: &str, val: ConstVal)
        ensures
            has_key(old(self)@, k@) ==> final(self)@ == old(self)@,
            !has_key(old(self)@, k@) ==> final(self)@ == old(self)@.push(
                FactView { key: k@, val: val@ },
            ),
            distinct_keys(old(self)@) ==> distinct_keys(final(self)@),
            val_of(final(self)@, k@) == (if has_key(old(self)@, k@) {
                val_of(old(self)@, k@)
            } else {
                Some(val@)
            }),
            forall|k2: Seq<char>|
                k2 != k@ ==> #[trigger] val_of(final(self)@, k2) == val_of(old(self)@, k2),
    {
        let found = self.find_key(k);
        match found {
            Some(i) => {
                proof {
                    lemma_val_of_first_index(self@, k@, i as int);
                }
            },
            None => {
                proof {
                    lemma_val_of_absent(self@, k@);
                }
                let key = String::from_str(k);
                self.entries.push(Fact { key, val });
                proof {
                    assert(self@ =~= old(self)@.push(FactView { key: k@, val: val@ }));
                    lemma_val_of_push(old(self)@, FactView { key: k@, val: val@ });
                    if distinct_keys(old(self)@) {
                        assert forall|i: int, j: int|
                            0 <= i < j < self@.len() implies (#[trigger] self@[i].key)
                            != (#[trigger] self@[j].key) by {
                            if j == self@.len() - 1 {
                                lemma_key_present(old(self)@, i);
                            }
                        }
                    }
                }
            },
        }
    }
}

/// The serialised form of a boolean fact value.
pub open spec fn bool_chars(b: bool) -> Seq<char> {
    if b {
        "true"@
    } else {
        "false"@
    }
}

/// How one `update` call relates the new table to the old one: the first
/// entry with key `k`, if any, now carries value `v` of kind `t` with its
/// description kept; everything else is unchanged.
pub open spec fn table_updated(
    old_t: Seq<FactView>,
    new_t: Seq<FactView>,
    k: Seq<char>,
    v: Seq<char>,
    t: ConstType,
) -> bool {
    &&& new_t.len() == old_t.len()
    &&& forall|j: int| 0 <= j < old_t.len() ==> (#[trigger] new_t[j].key) == old_t[j].key
    &&& forall|k2: Seq<char>| k2 != k ==> #[trigger] val_of(new_t, k2) == val_of(old_t, k2)
    &&& !has_key(old_t, k) ==> new_t == old_t
    &&& (val_of(old_t, k) matches Some(f0) ==> val_of(new_t, k) == Some(
        ConstValView { desc: f0.desc, v: v, t: t },
    ))
    &&& distinct_keys(old_t) ==> distinct_keys(new_t)
}

/// Appending an entry leaves every recorded value in place and records
/// the new entry's value under its key when that key was absent.
pub proof fn lemma_val_of_push(s: Seq<FactView>, f: FactView)
    ensures
        forall|k2: Seq<char>|
            k2 != f.key ==> #[trigger] val_of(s.push(f), k2) == val_of(s, k2),
        val_of(s.push(f), f.key) == (if has_key(s, f.key) {
            val_of(s, f.key)
        } else {
            Some(f.val)
        }),
    decreases s.len(),
{
    let sp = s.push(f);
    if s.len() == 0 {
        assert(sp[0] == f);
        let tail = sp.subrange(1, sp.len() as int);
        assert(tail.len() == 0);
        assert forall|k2: Seq<char>| k2 != f.key implies #[trigger] val_of(sp, k2) == val_of(
            s,
            k2,
        ) by {
            assert(val_of(sp, k2) == val_of(tail, k2));
            assert(val_of(tail, k2) is None);
            assert(val_of(s, k2) is None);
        }
    } else {
        let tail = s.subrange(1, s.len() as int);
        lemma_val_of_push(tail, f);
        assert(tail.push(f) =~= sp.subrange(1, sp.len() as int));
        assert(sp[0] == s[0]);
        assert forall|k2: Seq<char>| k2 != f.key implies #[trigger] val_of(sp, k2) == val_of(
            s,
            k2,
        ) by {
            if s[0].key == k2 {
            } else {
                assert(val_of(sp, k2) == val_of(tail.push(f), k2));
                assert(val_of(s, k2) == val_of(tail, k2));
            }
        }
        if s[0].key == f.key {
        } else {
            assert(val_of(sp, f.key) == val_of(tail.push(f), f.key));
            assert(val_of(s, f.key) == val_of(tail, f.key));
        }
    }
}

/// How one kind-preserving `update_value` call relates the new table to
/// the old one.
pub open spec fn table_value_updated(
    old_t: Seq<FactView>,
    new_t: Seq<FactView>,
    k: Seq<char>,
    v: Seq<char>,
) -> bool {
    &&& new_t.len() == old_t.len()
    &&& forall|j: int| 0 <= j < old_t.len() ==> (#[trigger] new_t[j].key) == old_t[j].key
    &&& forall|k2: Seq<char>| k2 != k ==> #[trigger] val_of(new_t, k2) == val_of(old_t, k2)
    &&& !has_key(old_t, k) ==> new_t == old_t
    &&& (val_of(old_t, k) matches Some(f0) ==> val_of(new_t, k) == Some(
        ConstValView { desc: f0.desc, v: v, t: f0.t },
    ))
    &&& distinct_keys(old_t) ==> distinct_keys(new_t)
}

/// If an entry of `s` at position `i` exists, `s` has that entry's key.
pub proof fn lemma_key_present(s: Seq<FactView>, i: int)
    requires
        0 <= i < s.len(),
    ensures
        has_key(s, s[i].key),
    decreases i,
{
    if i == 0 {
    } else {
        let tail = s.subrange(1, s.len() as int);
        if s[0].key == s[i].key {
        } else {
            assert(tail[i - 1] == s[i]);
            lemma_key_present(tail, i - 1);
        }
    }
}

/// Updating the first entry that carries a key rewrites `val_of` for that
/// key and leaves every other key's value unchanged.
pub proof fn lemma_val_of_update(s: Seq<FactView>, s2: Seq<FactView>, i: int)
    requires
        s.len() == s2.len(),
        0 <= i < s.len(),
        forall|j: int| 0 <= j < s.len() && j != i ==> s2[j] == s[j],
        s2[i].key == s[i].key,
        forall|j: int| 0 <= j < i ==> s[j].key != s[i].key,
    ensures
        val_of(s2, s[i].key) == Some(s2[i].val),
        forall|k2: Seq<char>| k2 != s[i].key ==> #[trigger] val_of(s2, k2) == val_of(s, k2),
        distinct_keys(s) ==> distinct_keys(s2),
    decreases s.len(),
{
    assert(forall|j: int| 0 <= j < i ==> s2[j].key != s2[i].key);
    lemma_val_of_first_index(s2, s[i].key, i);
    let tail = s.subrange(1, s.len() as int);
    let tail2 = s2.subrange(1, s2.len() as int);
    if i == 0 {
        assert(tail2 =~= tail);
        assert forall|k2: Seq<char>| k2 != s[i].key implies #[trigger] val_of(s2, k2) == val_of(
            s,
            k2,
        ) by {
            assert(s[0].key != k2);
            assert(s2[0].key != k2);
        }
    } else {
        assert(forall|j: int| 0 <= j < tail.len() && j != i - 1 ==> tail2[j] == tail[j]);
        assert(tail2[i - 1] == s2[i] && tail[i - 1] == s[i]);
        assert(forall|j: int| 0 <= j < i - 1 ==> (#[trigger] tail[j]).key != tail[i - 1].key);
        lemma_val_of_update(tail, tail2, i - 1);
        assert forall|k2: Seq<char>| k2 != s[i].key implies #[trigger] val_of(s2, k2) == val_of(
            s,
            k2,
        ) by {
            assert(s2[0] == s[0]);
            if s[0].key == k2 {
            } else {
                assert(val_of(s2, k2) == val_of(tail2, k2));
                assert(val_of(s, k2) == val_of(tail, k2));
            }
        }
    }
    if distinct_keys(s) {
        assert forall|a: int, b: int| 0 <= a < b < s2.len() implies (#[trigger] s2[a].key)
            != (#[trigger] s2[b].key) by {
            assert(s2[a].key == s[a].key);
            assert(s2[b].key == s[b].key);
        }
    }
}

/// If `i` is the first index carrying key `k`, then `val_of` returns that
/// entry's value.
pub proof fn lemma_val_of_first_index(s: Seq<FactView>, k: Seq<char>, i: int)
    requires
        0 <= i < s.len(),
        s[i].key == k,
        forall|j: int| 0 <= j < i ==> s[j].key != k,
    ensures
        val_of(s, k) == Some(s[i].val),
    decreases i,
{
    if i == 0 {
    } else {
        let tail = s.subrange(1, s.len() as int);
        assert(forall|j: int| 0 <= j < i - 1 ==> tail[j] == s[j + 1]);
        lemma_val_of_first_index(tail, k, i - 1);
    }
}

/// The mathematical value of one environment entry.
#[verifier::ext_equal]
pub struct EnvEntryView {
    pub key: Seq<char>,
    pub val: Seq<char>,
}

/// One variable of the build-environment snapshot.
#[derive(Debug, Clone)]
pub struct EnvEntry {
    pub key: String,
    pub val: String,
}

impl View for EnvEntry {
    type V = EnvEntryView;

    open spec fn view(&self) -> EnvEntryView {
        EnvEntryView { key: self.key@, val: self.val@ }
    }
}

/// The value recorded for variable `k` in `s`: the first entry with that
/// name, if any.
pub open spec fn env_val(s: Seq<EnvEntryView>, k: Seq<char>) -> Option<Seq<char>>
    decreases s.len(),
{
    if s.len() == 0 {
        None
    } else if s[0].key == k {
        Some(s[0].val)
    } else {
        env_val(s.subrange(1, s.len() as int), k)
    }
}

/// An immutable snapshot of the build environment's variables, read once
/// and passed explicitly into the resolver.
#[derive(Debug, Clone)]
pub struct EnvSnapshot {
    pub entries: Vec<EnvEntry>,
}

impl View for EnvSnapshot {
    type V = Seq<EnvEntryView>;

    open spec fn view(&self) -> Seq<EnvEntryView> {
        self.entries@.map_values(|e: EnvEntry| e@)
    }
}

impl EnvSnapshot {
    /// An empty snapshot.
    pub fn new() -> (r: EnvSnapshot)
        ensures
            r@ == Seq::<EnvEntryView>::empty(),
    {
        let r = EnvSnapshot { entries: Vec::new() };
        proof {
            assert(r@ =~= Seq::<EnvEntryView>::empty());
        }
        r
    }

    /// Record one variable at the end of the snapshot.
    pub fn push_entry(&mut self, key: String, val: String)
        ensures
            final(self)@ == old(self)@.push(EnvEntryView { key: key@, val: val@ }),
    {
        self.entries.push(EnvEntry { key, val });
        proof {
            assert(self@ =~= old(self)@.push(EnvEntryView { key: key@, val: val@ }));
        }
    }

    /// Look the variable `k` up, returning a copy of its value.
    pub fn get(&self, k: &str) -> (r: Option<String>)
        ensures
            match r {
                Some(v) => env_val(self@, k@) == Some(v@),
                None => env_val(self@, k@) is None,
            },
    {
        let n: usize = self.entries.len();
        let mut i: usize = 0;
        while i < n
            invariant
                i <= n,
                n == self.entries@.len(),
                self@.len() == n,
                forall|j: int| 0 <= j < i ==> (#[trigger] self@[j]).key != k@,
            decreases n - i,
        {
            if str_eq(self.entries[i].key.as_str(), k) {
                let v = self.entries[i].val.clone();
                proof {
                    lemma_env_val_first_index(self@, k@, i as int);
                }
                return Some(v);
            }
            i = i + 1;
        }
        proof {
            lemma_env_val_absent(self@, k@);
        }
        None
    }
}

/// If `i` is the first index of variable `k`, then `env_val` returns that
/// entry's value.
pub proof fn lemma_env_val_first_index(s: Seq<EnvEntryView>, k: Seq<char>, i: int)
    requires
        0 <= i < s.len(),
        s[i].key == k,
        forall|j: int| 0 <= j < i ==> (#[trigger] s[j]).key != k,
    ensures
        env_val(s, k) == Some(s[i].val),
    decreases i,
{
    if i == 0 {
    } else {
        let tail = s.subrange(1, s.len() as int);
        assert(forall|j: int| 0 <= j < i - 1 ==> #[trigger] tail[j] == s[j + 1]);
        lemma_env_val_first_index(tail, k, i - 1);
    }
}

/// If no entry of `s` carries variable `k`, then `env_val` returns nothing.
pub proof fn lemma_env_val_absent(s: Seq<EnvEntryView>, k: Seq<char>)
    requires
        forall|j: int| 0 <= j < s.len() ==> (#[trigger] s[j]).key != k,
    ensures
        env_val(s, k) is None,
    decreases s.len(),
{
    if s.len() > 0 {
        let tail = s.subrange(1, s.len() as int);
        assert(forall|j: int| 0 <= j < tail.len() ==> #[trigger] tail[j] == s[j + 1]);
        lemma_env_val_absent(tail, k);
    }
}

/// If no entry of `s` carries key `k`, then `val_of` returns nothing.
pub proof fn lemma_val_of_absent(s: Seq<FactView>, k: Seq<char>)
    requires
        forall|j: int| 0 <= j < s.len() ==> s[j].key != k,
    ensures
        val_of(s, k) is None,
    decreases s.len(),
{
    if s.len() > 0 {
        let tail = s.subrange(1, s.len() as int);
        assert(forall|j: int| 0 <= j < tail.len() ==> tail[j] == s[j + 1]);
        lemma_val_of_absent(tail, k);
    }
}

} // verus!

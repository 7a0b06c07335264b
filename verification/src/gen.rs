//! The artifact generator: serialises a resolved fact table into the
//! declaration text the downstream build consumes. Given the same table
//! and the same injected timestamp the output is byte-identical.

use vstd::prelude::*;

use crate::date_time::{rfc2822_chars, DateTime};
use crate::fact::{val_of, ConstType, FactTable, FactView};
use crate::gen_const::CARGO_CLIPPY_ALLOW_ALL;
use crate::strutil::chars_to_string;

verus! {

/// How one character is written inside a generated string literal.
pub open spec fn escape_char(c: char) -> Seq<char> {
    if c == '"' {
        seq!['\\', '"']
    } else if c == '\\' {
        seq!['\\', '\\']
    } else if c == '\n' {
        seq!['\\', 'n']
    } else if c == '\r' {
        seq!['\\', 'r']
    } else if c == '\t' {
        seq!['\\', 't']
    } else {
        seq![c]
    }
}

/// A text, escaped for a generated string literal.
pub open spec fn escaped(s: Seq<char>) -> Seq<char>
    decreases s.len(),
{
    if s.len() == 0 {
        Seq::empty()
    } else {
        escaped(s.drop_last()) + escape_char(s.last())
    }
}

/// Escape a text for a generated string literal.
pub fn escape_str(s: &str) -> (r: String)
    ensures
        r@ == escaped(s@),
{
    let n: usize = s.unicode_len();
    let mut out: Vec<char> = Vec::new();
    let mut i: usize = 0;
    proof {
        assert(out@ =~= escaped(s@.subrange(0, 0)));
    }
    while i < n
        invariant
            i <= n,
            n == s@.len(),
            out@ == escaped(s@.subrange(0, i as int)),
        decreases n - i,
    {
        let c = s.get_char(i);
        if c == '"' {
            out.push('\\');
            out.push('"');
        } else if c == '\\' {
            out.push('\\');
            out.push('\\');
        } else if c == '\n' {
            out.push('\\');
            out.push('n');
        } else if c == '\r' {
            out.push('\\');
            out.push('r');
        } else if c == '\t' {
            out.push('\\');
            out.push('t');
        } else {
            out.push(c);
        }
        i = i + 1;
        proof {
            let cur = s@.subrange(0, i as int);
            assert(cur.drop_last() =~= s@.subrange(0, i - 1));
            assert(cur.last() == s@[i - 1]);
            assert(out@ =~= escaped(cur));
        }
    }
    proof {
        assert(s@.subrange(0, n as int) =~= s@);
    }
    chars_to_string(&out)
}

/// The declaration text of one fact: its documentation as a doc
/// attribute, the fixed allow attributes, and one typed constant whose
/// encoding follows the fact's kind.
pub open spec fn decl_text(f: FactView) -> Seq<char> {
    "#[doc = \""@ + escaped(f.val.desc) + "\"]\n#[allow(dead_code)]\n"@ + CARGO_CLIPPY_ALLOW_ALL@
        + "\n"@ + (match f.val.t {
        ConstType::Str => "pub const "@ + f.key + ": &str = \""@ + escaped(f.val.v)
            + "\";\n\n"@,
        ConstType::Bool => "pub const "@ + f.key + ": bool = "@ + f.val.v + ";\n\n"@,
        ConstType::Slice => "pub const "@ + f.key + ": &[u8] = \""@ + escaped(f.val.v)
            + "\".as_bytes();\n\n"@,
        ConstType::Usize => "pub const "@ + f.key + ": usize = "@ + f.val.v + ";\n\n"@,
        ConstType::Int => "pub const "@ + f.key + ": i64 = "@ + f.val.v + ";\n\n"@,
    })
}

/// The declaration text of a whole table, in table order.
pub open spec fn decls_text(t: Seq<FactView>) -> Seq<char>
    decreases t.len(),
{
    if t.len() == 0 {
        Seq::empty()
    } else {
        decls_text(t.drop_last()) + decl_text(t.last())
    }
}

/// Append the declaration of one fact.
fn push_decl(out: &mut String, key: &str, desc: &str, v: &str, t: ConstType)
    ensures
        final(out)@ == old(out)@ + decl_text(
            FactView {
                key: key@,
                val: crate::fact::ConstValView { desc: desc@, v: v@, t: t },
            },
        ),
{
    out.append("#[doc = \"");
    out.append(escape_str(desc).as_str());
    out.append("\"]\n#[allow(dead_code)]\n");
    out.append(CARGO_CLIPPY_ALLOW_ALL);
    out.append("\n");
    match t {
        ConstType::Str => {
            out.append("pub const ");
            out.append(key);
            out.append(": &str = \"");
            out.append(escape_str(v).as_str());
            out.append("\";\n\n");
        },
        ConstType::Bool => {
            out.append("pub const ");
            out.append(key);
            out.append(": bool = ");
            out.append(v);
            out.append(";\n\n");
        },
        ConstType::Slice => {
            out.append("pub const ");
            out.append(key);
            out.append(": &[u8] = \"");
            out.append(escape_str(v).as_str());
            out.append("\".as_bytes();\n\n");
        },
        ConstType::Usize => {
            out.append("pub const ");
            out.append(key);
            out.append(": usize = ");
            out.append(v);
            out.append(";\n\n");
        },
        ConstType::Int => {
            out.append("pub const ");
            out.append(key);
            out.append(": i64 = ");
            out.append(v);
            out.append(";\n\n");
        },
    }
}

/// Render the declarations of a table, in table order.
pub fn gen_decls(t: &FactTable) -> (r: String)
    ensures
        r@ == decls_text(t@),
{
    let mut out = String::new();
    let n: usize = t.entries.len();
    let mut i: usize = 0;
    proof {
        assert(out@ =~= decls_text(t@.subrange(0, 0)));
    }
    while i < n
        invariant
            i <= n,
            n == t.entries@.len(),
            t@.len() == n,
            out@ == decls_text(t@.subrange(0, i as int)),
        decreases n - i,
    {
        let f = &t.entries[i];
        push_decl(&mut out, f.key.as_str(), f.val.desc.as_str(), f.val.v.as_str(), f.val.t);
        i = i + 1;
        proof {
            let cur = t@.subrange(0, i as int);
            assert(cur.drop_last() =~= t@.subrange(0, i - 1));
            assert(cur.last() == t@[i - 1]);
            assert(out@ =~= decls_text(cur));
        }
    }
    proof {
        assert(t@.subrange(0, n as int) =~= t@);
    }
    out
}

/// One line of the fact-printing procedure.
pub open spec fn print_line(key: Seq<char>) -> Seq<char> {
    "    println!(\"{}:{:?}\", \""@ + key + "\", "@ + key + ");\n"@
}

/// The body lines of the fact-printing procedure, in table order.
pub open spec fn print_lines(t: Seq<FactView>) -> Seq<char>
    decreases t.len(),
{
    if t.len() == 0 {
        Seq::empty()
    } else {
        print_lines(t.drop_last()) + print_line(t.last().key)
    }
}

/// The fact-printing procedure: prints every fact key and value of the
/// table, in table order.
pub open spec fn print_fn_text(t: Seq<FactView>) -> Seq<char> {
    "/// Prints all resolved build facts to standard output.\n#[allow(dead_code)]\n"@
        + CARGO_CLIPPY_ALLOW_ALL@ + "\npub fn print_build_in() {\n"@ + print_lines(t) + "}\n"@
}

/// Render the fact-printing procedure of a table.
pub fn gen_print_fn(t: &FactTable) -> (r: String)
    ensures
        r@ == print_fn_text(t@),
{
    let mut out = String::from_str(
        "/// Prints all resolved build facts to standard output.\n#[allow(dead_code)]\n",
    );
    out.append(CARGO_CLIPPY_ALLOW_ALL);
    out.append("\npub fn print_build_in() {\n");
    let ghost head = out@;
    let n: usize = t.entries.len();
    let mut i: usize = 0;
    proof {
        assert(out@ =~= head + print_lines(t@.subrange(0, 0)));
    }
    while i < n
        invariant
            i <= n,
            n == t.entries@.len(),
            t@.len() == n,
            out@ == head + print_lines(t@.subrange(0, i as int)),
            head == "/// Prints all resolved build facts to standard output.\n#[allow(dead_code)]\n"@
                + CARGO_CLIPPY_ALLOW_ALL@ + "\npub fn print_build_in() {\n"@,
        decreases n - i,
    {
        out.append("    println!(\"{}:{:?}\", \"");
        out.append(t.entries[i].key.as_str());
        out.append("\", ");
        out.append(t.entries[i].key.as_str());
        out.append(");\n");
        i = i + 1;
        proof {
            let cur = t@.subrange(0, i as int);
            assert(cur.drop_last() =~= t@.subrange(0, i - 1));
            assert(cur.last() == t@[i - 1]);
            assert(out@ =~= head + print_lines(cur));
        }
    }
    proof {
        assert(t@.subrange(0, n as int) =~= t@);
    }
    out.append("}\n");
    out
}

/// Whether the table carries a non-empty tag fact, which selects the
/// tag flavour of the summary declarations.
pub open spec fn tag_flavoured(t: Seq<FactView>) -> bool {
    match val_of(t, "TAG"@) {
        Some(f) => f.v.len() > 0,
        None => false,
    }
}

/// The generation header: a fixed provenance comment and the injected
/// generation timestamp.
pub open spec fn header_text(now: DateTime) -> Seq<char> {
    "// Build provenance facts, resolved for this build.\n// resolved at: "@ + rfc2822_chars(
        now.odt_spec(),
    ) + "\n\n"@
}

} // verus!

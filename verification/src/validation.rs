//! Rendering a validation report into one human-readable line.
//!
//! A report is a tree: each named field carries either its own failed checks,
//! a list of nested reports, or one nested report. Rendering walks the tree
//! and writes one item per failed check, separated by commas.

use vstd::prelude::*;
use vstd::string::StringExecFns;

verus! {

/// One failed check: its code, its message when it has one, and its
/// parameters, each already rendered to text.
pub struct FieldError {
    pub code: String,
    pub message: Option<String>,
    pub params: Vec<(String, String)>,
}

/// The failures recorded under one name.
pub enum ErrorsKind {
    /// Checks that failed on the named field itself.
    Field(Vec<FieldError>),
    /// Failures of the elements of a list, in element order.
    List(Vec<ErrorTree>),
    /// Failures of one nested record.
    Struct(Box<ErrorTree>),
}

/// A validation report: the failures under each name, in order.
pub struct ErrorTree {
    pub entries: Vec<(String, ErrorsKind)>,
}

/// The given parts joined with `, `.
pub open spec fn spec_comma_join(parts: Seq<Seq<char>>) -> Seq<char>
    decreases parts.len(),
{
    if parts.len() == 0 {
        Seq::empty()
    } else if parts.len() == 1 {
        parts[0]
    } else {
        spec_comma_join(parts.drop_last()) + ", "@ + parts.last()
    }
}

/// The text of one parameter: its name and its value.
pub open spec fn spec_param_text(p: (String, String)) -> Seq<char> {
    p.0@ + ": "@ + p.1@
}

/// The text of one failed check: the field, the message (or, without one, the
/// code), and the parameters in parentheses when there are any.
pub open spec fn spec_item_text(field: Seq<char>, e: FieldError) -> Seq<char> {
    field + ": "@ + (match e.message {
        Some(m) => m@,
        None => e.code@,
    }) + (if e.params@.len() == 0 {
        Seq::<char>::empty()
    } else {
        " ("@ + spec_comma_join(e.params@.map_values(|p: (String, String)| spec_param_text(p)))
            + ")"@
    })
}

/// The item texts a kind contributes under the given field name, in
/// traversal order.
pub open spec fn spec_kind_items(field: Seq<char>, kind: ErrorsKind) -> Seq<Seq<char>>
    decreases kind, 1int,
{
    match kind {
        ErrorsKind::Field(v) => v@.map_values(|e: FieldError| spec_item_text(field, e)),
        ErrorsKind::List(trees) => spec_trees_items(trees@),
        ErrorsKind::Struct(t) => spec_tree_items(*t),
    }
}

/// The item texts of a run of reports, in order.
pub open spec fn spec_trees_items(ts: Seq<ErrorTree>) -> Seq<Seq<char>>
    decreases ts, 0int,
{
    if ts.len() == 0 {
        Seq::empty()
    } else {
        spec_trees_items(ts.drop_last()) + spec_tree_items(ts.last())
    }
}

/// The item texts of one report, in order.
pub open spec fn spec_tree_items(t: ErrorTree) -> Seq<Seq<char>>
    decreases t, 2int,
{
    spec_entries_items(t.entries@)
}

/// The item texts of a run of named entries, in order.
pub open spec fn spec_entries_items(es: Seq<(String, ErrorsKind)>) -> Seq<Seq<char>>
    decreases es, 0int,
{
    if es.len() == 0 {
        Seq::empty()
    } else {
        spec_entries_items(es.drop_last()) + spec_kind_items(es.last().0@, es.last().1)
    }
}

/// Whether every item has text.
pub open spec fn all_nonempty(items: Seq<Seq<char>>) -> bool {
    forall|i: int| 0 <= i < items.len() ==> #[trigger] items[i].len() > 0
}

/// What appending items to a buffer yields: text already standing in the
/// buffer is separated from the items by `, `.
pub open spec fn spec_appended(prefix: Seq<char>, items: Seq<Seq<char>>) -> Seq<char> {
    if items.len() == 0 {
        prefix
    } else if prefix.len() == 0 {
        spec_comma_join(items)
    } else {
        prefix + ", "@ + spec_comma_join(items)
    }
}

/// Joining two runs of items one after the other joins them all.
proof fn lemma_comma_join_concat(a: Seq<Seq<char>>, b: Seq<Seq<char>>)
    requires
        a.len() > 0,
        b.len() > 0,
    ensures
        spec_comma_join(a + b) == spec_comma_join(a) + ", "@ + spec_comma_join(b),
    decreases b.len(),
{
    if b.len() == 1 {
        assert((a + b).drop_last() =~= a);
        assert((a + b).last() == b[0]);
    } else {
        assert((a + b).drop_last() =~= a + b.drop_last());
        lemma_comma_join_concat(a, b.drop_last());
        assert(spec_comma_join(a) + ", "@ + spec_comma_join(b.drop_last()) + ", "@ + b.last() =~=
            spec_comma_join(a) + ", "@ + (spec_comma_join(b.drop_last()) + ", "@ + b.last()));
    }
}

/// Joined items with text make text.
proof fn lemma_comma_join_nonempty(a: Seq<Seq<char>>)
    requires
        a.len() > 0,
        all_nonempty(a),
    ensures
        spec_comma_join(a).len() > 0,
{
    reveal_strlit(", ");
    if a.len() == 1 {
        assert(a[0].len() > 0);
    }
}

/// Appending two runs of items one after the other appends them all.
proof fn lemma_appended_concat(prefix: Seq<char>, a: Seq<Seq<char>>, b: Seq<Seq<char>>)
    requires
        all_nonempty(a),
    ensures
        spec_appended(spec_appended(prefix, a), b) == spec_appended(prefix, a + b),
{
    if a.len() == 0 {
        assert(a + b =~= b);
    } else if b.len() == 0 {
        assert(a + b =~= a);
    } else {
        lemma_comma_join_concat(a, b);
        lemma_comma_join_nonempty(a);
        if prefix.len() == 0 {
        } else {
            assert(prefix + ", "@ + spec_comma_join(a) + ", "@ + spec_comma_join(b) =~= prefix
                + ", "@ + (spec_comma_join(a) + ", "@ + spec_comma_join(b)));
            assert((prefix + ", "@ + spec_comma_join(a)).len() > 0);
        }
    }
}

/// Every item a kind contributes has text: each holds at least `: `.
proof fn lemma_kind_items_nonempty(field: Seq<char>, kind: ErrorsKind)
    ensures
        all_nonempty(spec_kind_items(field, kind)),
    decreases kind, 1int,
{
    reveal_strlit(": ");
    match kind {
        ErrorsKind::Field(v) => {
            let items = spec_kind_items(field, kind);
            assert forall|i: int| 0 <= i < items.len() implies #[trigger] items[i].len() > 0 by {
                assert(items[i] == spec_item_text(field, v@[i]));
            }
        },
        ErrorsKind::List(trees) => {
            lemma_trees_items_nonempty(trees@);
        },
        ErrorsKind::Struct(t) => {
            lemma_tree_items_nonempty(*t);
        },
    }
}

/// Every item a run of reports contributes has text.
proof fn lemma_trees_items_nonempty(ts: Seq<ErrorTree>)
    ensures
        all_nonempty(spec_trees_items(ts)),
    decreases ts, 0int,
{
    if ts.len() > 0 {
        lemma_trees_items_nonempty(ts.drop_last());
        lemma_tree_items_nonempty(ts.last());
    }
}

/// Every item one report contributes has text.
proof fn lemma_tree_items_nonempty(t: ErrorTree)
    ensures
        all_nonempty(spec_tree_items(t)),
    decreases t, 2int,
{
    lemma_entries_items_nonempty(t.entries@);
}

/// Every item a run of named entries contributes has text.
proof fn lemma_entries_items_nonempty(es: Seq<(String, ErrorsKind)>)
    ensures
        all_nonempty(spec_entries_items(es)),
    decreases es, 0int,
{
    if es.len() > 0 {
        lemma_entries_items_nonempty(es.drop_last());
        lemma_kind_items_nonempty(es.last().0@, es.last().1);
    }
}

/// Writes the text of one failed check at the end of the buffer.
fn append_item(field: &str, e: &FieldError, buf: &mut String)
    ensures
        final (buf)@ == old(buf)@ + spec_item_text(field@, *e),
{
    let ghost texts = e.params@.map_values(|p: (String, String)| spec_param_text(p));
    buf.append(field);
    buf.append(": ");
    match &e.message {
        Some(m) => buf.append(m.as_str()),
        None => buf.append(e.code.as_str()),
    }
    let ghost base = buf@;
    if e.params.len() > 0 {
        buf.append(" (");
        let mut j: usize = 0;
        while j < e.params.len()
            invariant
                0 <= j <= e.params@.len(),
                texts == e.params@.map_values(|p: (String, String)| spec_param_text(p)),
                buf@ == base + " ("@ + spec_comma_join(texts.take(j as int)),
            decreases e.params@.len() - j,
        {
            if j > 0 {
                buf.append(", ");
            }
            let p = &e.params[j];
            buf.append(p.0.as_str());
            buf.append(": ");
            buf.append(p.1.as_str());
            proof {
                assert(texts.take(j as int + 1).drop_last() =~= texts.take(j as int));
                assert(texts.take(j as int + 1).last() == texts[j as int]);
                assert(buf@ =~= base + " ("@ + spec_comma_join(texts.take(j as int + 1)));
            }
            j += 1;
        }
        buf.append(")");
        proof {
            assert(texts.take(e.params@.len() as int) =~= texts);
        }
    }
    proof {
        assert(final (buf)@ =~= old(buf)@ + spec_item_text(field@, *e));
    }
}

/// Writes the failed checks of one field at the end of the buffer, each
/// preceded by `, ` when text already stands before it.
fn append_field_list(field: &str, v: &Vec<FieldError>, buf: &mut String)
    ensures
        final (buf)@ == spec_appended(
            old(buf)@,
            v@.map_values(|e: FieldError| spec_item_text(field@, e)),
        ),
{
    let ghost items = v@.map_values(|e: FieldError| spec_item_text(field@, e));
    let mut i: usize = 0;
    while i < v.len()
        invariant
            0 <= i <= v@.len(),
            items == v@.map_values(|e: FieldError| spec_item_text(field@, e)),
            buf@ == spec_appended(old(buf)@, items.take(i as int)),
        decreases v@.len() - i,
    {
        proof {
            reveal_strlit(": ");
            assert(all_nonempty(items.take(i as int))) by {
                assert forall|k: int| 0 <= k < items.take(i as int).len() implies #[trigger] items.take(
                    i as int,
                )[k].len() > 0 by {
                    assert(items.take(i as int)[k] == spec_item_text(field@, v@[k]));
                }
            }
            lemma_appended_concat(old(buf)@, items.take(i as int), seq![items[i as int]]);
            assert(items.take(i as int) + seq![items[i as int]] =~= items.take(i as int + 1));
        }
        let ghost before = buf@;
        if !buf.as_str().is_empty() {
            buf.append(", ");
        }
        append_item(field, &v[i], buf);
        proof {
            if before.len() == 0 {
                assert(buf@ =~= spec_comma_join(seq![items[i as int]]));
            } else {
                assert(buf@ =~= before + ", "@ + spec_comma_join(seq![items[i as int]]));
            }
        }
        i += 1;
    }
    proof {
        assert(items.take(v@.len() as int) =~= items);
    }
}

/// Writes the items of one report at the end of the buffer.
fn append_tree(t: &ErrorTree, buf: &mut String)
    ensures
        final (buf)@ == spec_appended(old(buf)@, spec_tree_items(*t)),
    decreases *t, 2int,
{
    let mut k: usize = 0;
    while k < t.entries.len()
        invariant
            0 <= k <= t.entries@.len(),
            buf@ == spec_appended(old(buf)@, spec_entries_items(t.entries@.take(k as int))),
        decreases t.entries@.len() - k,
    {
        let entry = &t.entries[k];
        proof {
            lemma_entries_items_nonempty(t.entries@.take(k as int));
            assert(decreases_to!(*t => t.entries));
            assert(decreases_to!(t.entries => t.entries@));
            assert(decreases_to!(t.entries@ => t.entries@[k as int]));
            assert(decreases_to!(t.entries@[k as int] => t.entries@[k as int].1));
        }
        let ghost chunk = spec_kind_items(entry.0@, entry.1);
        append_validator_errors(entry.0.as_str(), &entry.1, buf);
        proof {
            lemma_appended_concat(
                old(buf)@,
                spec_entries_items(t.entries@.take(k as int)),
                chunk,
            );
            assert(t.entries@.take(k as int + 1).drop_last() =~= t.entries@.take(k as int));
            assert(t.entries@.take(k as int + 1).last() == t.entries@[k as int]);
        }
        k += 1;
    }
    proof {
        assert(t.entries@.take(t.entries@.len() as int) =~= t.entries@);
    }
}

/// Writes the items a kind contributes under the given field name at the end
/// of the buffer, each preceded by `, ` when text already stands before it.
pub fn append_validator_errors(field: &str, err: &ErrorsKind, buf: &mut String)
    ensures
        final (buf)@ == spec_appended(old(buf)@, spec_kind_items(field@, *err)),
    decreases *err, 1int,
{
    match err {
        ErrorsKind::Field(v) => {
            append_field_list(field, v, buf);
        },
        ErrorsKind::List(trees) => {
            let mut k: usize = 0;
            while k < trees.len()
                invariant
                    *err == ErrorsKind::List(*trees),
                    0 <= k <= trees@.len(),
                    buf@ == spec_appended(old(buf)@, spec_trees_items(trees@.take(k as int))),
                decreases trees@.len() - k,
            {
                proof {
                    lemma_trees_items_nonempty(trees@.take(k as int));
                    assert(decreases_to!(*err => err->List_0));
                    assert(decreases_to!(*trees => trees@));
                    assert(decreases_to!(trees@ => trees@[k as int]));
                }
                append_tree(&trees[k], buf);
                proof {
                    lemma_appended_concat(
                        old(buf)@,
                        spec_trees_items(trees@.take(k as int)),
                        spec_tree_items(trees@[k as int]),
                    );
                    assert(trees@.take(k as int + 1).drop_last() =~= trees@.take(k as int));
                    assert(trees@.take(k as int + 1).last() == trees@[k as int]);
                }
                k += 1;
            }
            proof {
                assert(trees@.take(trees@.len() as int) =~= trees@);
            }
        },
        ErrorsKind::Struct(t) => {
            append_tree(t, buf);
        },
    }
}

/// Renders a whole validation report: every item of the tree, in traversal
/// order, joined with `, `.
pub fn format_validator(err: &ErrorTree) -> (r: String)
    ensures
        r@ == spec_comma_join(spec_tree_items(*err)),
{
    let mut buf = String::new();
    append_tree(err, &mut buf);
    buf
}

} // verus!

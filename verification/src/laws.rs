//! The library's general laws, stated and proved against the same spec
//! functions that the executable functions' contracts use.

use vstd::prelude::*;

use crate::ast::{ColumnOptionAst, TableConstraintAstV};
use crate::parse::{compile_result_view, spec_compiled_of};
use crate::render::{
    spec_column_line, spec_column_lines, spec_constraint_text, spec_filtered_tokens, spec_join,
};
use crate::schema::{
    ColumnDefinitionV, Constraint, ParsedTable, RelationEntryV, rel_entries_wf, spec_classify,
    spec_constraint_pairs, spec_rel_insert, spec_rel_insert_all, spec_table_relationships,
};

verus! {

/// Law: the constraint classifier is total — every column option kind maps to
/// exactly one of the six taxonomy values — and the `Undefined` value
/// serializes to the empty string.
pub proof fn lemma_classifier_total(o: ColumnOptionAst)
    ensures
        spec_classify(o) == Constraint::Null || spec_classify(o) == Constraint::NotNull
            || spec_classify(o) == Constraint::PrimaryKey || spec_classify(o)
            == Constraint::Unique || spec_classify(o) == Constraint::ForeignKey || spec_classify(o)
            == Constraint::Undefined,
        spec_constraint_text(Constraint::Undefined) =~= Seq::<char>::empty(),
{
    reveal_strlit("");
}

/// Law: compiling the same raw SQL text twice yields structurally equal
/// compiled sequences. The compiler's contract pins its result to a function
/// of the text alone, so two results for one text have equal images.
pub proof fn lemma_compile_idempotent(
    text: Seq<char>,
    r1: Result<Vec<ParsedTable>, String>,
    r2: Result<Vec<ParsedTable>, String>,
)
    requires
        compile_result_view(r1) == spec_compiled_of(text),
        compile_result_view(r2) == spec_compiled_of(text),
    ensures
        compile_result_view(r1) == compile_result_view(r2),
{
}

/// Law: a table's relationship index has unique keys — for each owning
/// column, at most one resolved target — whatever its constraints declare.
pub proof fn lemma_relationship_keys_unique(owner: Seq<char>, cs: Seq<TableConstraintAstV>)
    ensures
        rel_entries_wf(spec_table_relationships(owner, cs)),
    decreases cs.len(),
{
    if cs.len() > 0 {
        lemma_relationship_keys_unique(owner, cs.drop_last());
        crate::schema::lemma_insert_all_preserves_unique(
            spec_table_relationships(owner, cs.drop_last()),
            spec_constraint_pairs(owner, cs.last()),
        );
    }
}

/// All column pairs a table's constraints contribute, concatenated in order,
/// before any overwriting by key.
pub open spec fn spec_all_pairs(owner: Seq<char>, cs: Seq<TableConstraintAstV>) -> Seq<
    RelationEntryV,
>
    decreases cs.len(),
{
    if cs.len() == 0 {
        Seq::empty()
    } else {
        spec_all_pairs(owner, cs.drop_last()) + spec_constraint_pairs(owner, cs.last())
    }
}

/// Whether the owning columns of these entries are pairwise distinct.
pub open spec fn distinct_keys(es: Seq<RelationEntryV>) -> bool {
    forall|i: int, j: int| 0 <= i < j < es.len() ==> es[i].key != es[j].key
}

proof fn lemma_insert_fresh(s: Seq<RelationEntryV>, e: RelationEntryV)
    requires
        forall|k: int| 0 <= k < s.len() ==> s[k].key != e.key,
    ensures
        spec_rel_insert(s, e) == s.push(e),
    decreases s.len(),
{
    if s.len() == 0 {
        assert(spec_rel_insert(s, e) =~= s.push(e));
    } else {
        lemma_insert_fresh(s.drop_first(), e);
        assert(seq![s[0]] + s.drop_first().push(e) =~= s.push(e));
    }
}

proof fn lemma_insert_all_fresh(s: Seq<RelationEntryV>, es: Seq<RelationEntryV>)
    requires
        forall|i: int, j: int| 0 <= i < s.len() && 0 <= j < es.len() ==> s[i].key != es[j].key,
        distinct_keys(es),
    ensures
        spec_rel_insert_all(s, es) == s + es,
    decreases es.len(),
{
    if es.len() == 0 {
        assert(spec_rel_insert_all(s, es) =~= s + es);
    } else {
        let front = es.drop_last();
        let last = es.last();
        assert(forall|i: int, j: int|
            0 <= i < s.len() && 0 <= j < front.len() ==> s[i].key != front[j].key);
        assert(distinct_keys(front));
        lemma_insert_all_fresh(s, front);
        assert(forall|k: int| 0 <= k < (s + front).len() ==> (s + front)[k].key != last.key);
        lemma_insert_fresh(s + front, last);
        assert((s + front).push(last) =~= s + es);
    }
}

/// Law (round trip, relationship half): when the owning columns over all of a
/// table's foreign-key column pairs are pairwise distinct, nothing is
/// overwritten, and the relationship count equals the number of column pairs
/// summed across the foreign-key constraints — each pair list bounded by the
/// shorter of the two column lists.
pub proof fn lemma_relationship_count(owner: Seq<char>, cs: Seq<TableConstraintAstV>)
    requires
        distinct_keys(spec_all_pairs(owner, cs)),
    ensures
        spec_table_relationships(owner, cs) == spec_all_pairs(owner, cs),
        spec_table_relationships(owner, cs).len() == spec_all_pairs(owner, cs).len(),
    decreases cs.len(),
{
    if cs.len() == 0 {
    } else {
        let front = cs.drop_last();
        let all = spec_all_pairs(owner, cs);
        let fp = spec_all_pairs(owner, front);
        let lp = spec_constraint_pairs(owner, cs.last());
        assert(all == fp + lp);
        assert(distinct_keys(fp)) by {
            assert(forall|i: int| 0 <= i < fp.len() ==> fp[i] == all[i]);
        }
        lemma_relationship_count(owner, front);
        assert(forall|i: int, j: int|
            0 <= i < fp.len() && 0 <= j < lp.len() ==> fp[i].key != lp[j].key) by {
            assert(forall|i: int| 0 <= i < fp.len() ==> fp[i] == all[i]);
            assert(forall|j: int| 0 <= j < lp.len() ==> lp[j] == all[fp.len() + j]);
        }
        assert(distinct_keys(lp)) by {
            assert(forall|j: int| 0 <= j < lp.len() ==> lp[j] == all[fp.len() + j]);
        }
        lemma_insert_all_fresh(fp, lp);
    }
}

/// How often a character occurs in a text.
pub open spec fn count_char(s: Seq<char>, c: char) -> nat
    decreases s.len(),
{
    if s.len() == 0 {
        0
    } else {
        count_char(s.drop_last(), c) + (if s.last() == c {
            1nat
        } else {
            0nat
        })
    }
}

/// Whether a text contains no newline.
pub open spec fn newline_free(s: Seq<char>) -> bool {
    forall|i: int| 0 <= i < s.len() ==> s[i] != '\n'
}

proof fn lemma_count_concat(a: Seq<char>, b: Seq<char>, c: char)
    ensures
        count_char(a + b, c) == count_char(a, c) + count_char(b, c),
    decreases b.len(),
{
    if b.len() == 0 {
        assert(a + b =~= a);
    } else {
        assert((a + b).drop_last() =~= a + b.drop_last());
        assert((a + b).last() == b.last());
        lemma_count_concat(a, b.drop_last(), c);
    }
}

proof fn lemma_newline_free_count(s: Seq<char>)
    requires
        newline_free(s),
    ensures
        count_char(s, '\n') == 0,
    decreases s.len(),
{
    if s.len() > 0 {
        assert(newline_free(s.drop_last()));
        lemma_newline_free_count(s.drop_last());
    }
}

proof fn lemma_tokens_newline_free(c: Constraint)
    ensures
        newline_free(spec_constraint_text(c)),
{
    reveal_strlit("NULL");
    reveal_strlit("NOT NULL");
    reveal_strlit("PK");
    reveal_strlit("FK");
    reveal_strlit("UNIQUE");
    reveal_strlit("");
}

proof fn lemma_join_newline_free(parts: Seq<Seq<char>>, sep: Seq<char>)
    requires
        forall|k: int| 0 <= k < parts.len() ==> newline_free(#[trigger] parts[k]),
        newline_free(sep),
    ensures
        newline_free(spec_join(parts, sep)),
    decreases parts.len(),
{
    if parts.len() <= 1 {
    } else {
        let front = parts.drop_last();
        assert(forall|k: int| 0 <= k < front.len() ==> newline_free(#[trigger] front[k]));
        lemma_join_newline_free(front, sep);
        assert(newline_free(spec_join(front, sep) + sep + parts.last()));
    }
}

proof fn lemma_filtered_tokens_newline_free(cs: Seq<Constraint>, k: int)
    requires
        0 <= k < spec_filtered_tokens(cs).len(),
    ensures
        newline_free(spec_filtered_tokens(cs)[k]),
    decreases cs.len(),
{
    if cs.len() > 0 {
        let rest = spec_filtered_tokens(cs.drop_last());
        if k < rest.len() {
            lemma_filtered_tokens_newline_free(cs.drop_last(), k);
        } else {
            lemma_tokens_newline_free(cs.last());
        }
    }
}

proof fn lemma_column_line_newline_free(c: ColumnDefinitionV)
    requires
        newline_free(c.name),
        newline_free(c.data_type),
    ensures
        newline_free(spec_column_line(c)),
{
    reveal_strlit("\t");
    reveal_strlit(": ");
    reveal_strlit(" {constraint: ");
    reveal_strlit("}");
    reveal_strlit(", ");
    let toks = spec_filtered_tokens(c.constraint);
    assert(forall|k: int| 0 <= k < toks.len() ==> newline_free(#[trigger] toks[k])) by {
        assert forall|k: int| 0 <= k < toks.len() implies newline_free(#[trigger] toks[k]) by {
            lemma_filtered_tokens_newline_free(c.constraint, k);
        }
    }
    lemma_join_newline_free(toks, ", "@);
}

/// Law (round trip, column half): a table with N columns renders to a block
/// whose column-line region holds exactly N lines — the newline count of
/// `spec_column_lines` equals the column count — provided no column name or
/// type text itself contains a newline. `spec_table_text` splices this region
/// between the fixed header and the closing brace.
pub proof fn lemma_rendered_column_lines(cols: Seq<ColumnDefinitionV>)
    requires
        forall|i: int|
            0 <= i < cols.len() ==> newline_free(#[trigger] cols[i].name) && newline_free(
                cols[i].data_type,
            ),
    ensures
        count_char(spec_column_lines(cols), '\n') == cols.len(),
    decreases cols.len(),
{
    reveal_strlit("\n");
    if cols.len() == 0 {
    } else {
        let front = cols.drop_last();
        assert(forall|i: int|
            0 <= i < front.len() ==> newline_free(#[trigger] front[i].name) && newline_free(
                front[i].data_type,
            ));
        lemma_rendered_column_lines(front);
        let line = spec_column_line(cols.last());
        lemma_column_line_newline_free(cols.last());
        lemma_newline_free_count(line);
        assert(count_char("\n"@, '\n') == 1) by {
            assert("\n"@.len() == 1);
            assert("\n"@.last() == '\n');
            assert("\n"@.drop_last().len() == 0);
            assert(count_char("\n"@.drop_last(), '\n') == 0);
        }
        lemma_count_concat(spec_column_lines(front) + line, "\n"@, '\n');
        lemma_count_concat(spec_column_lines(front), line, '\n');
        assert(spec_column_lines(cols) == spec_column_lines(front) + line + "\n"@);
    }
}

} // verus!

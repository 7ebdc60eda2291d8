//! The diagram serializer: each normalized table becomes one
//! diagram-description block with deterministic formatting, and the
//! relationship edges of all tables follow the blocks, one directive per
//! mapping, in table order and then index order.

use vstd::prelude::*;
use vstd::string::StringExecFns;

use crate::schema::{
    ColumnDefinition, ColumnDefinitionV, Constraint, D2Table, D2TableV, ParsedTable, ParsedTableV,
    RelationEntry, RelationEntryV, column_defs_view, entries_view, parsed_tables_view,
};

verus! {

/// The fixed short token of each taxonomy value; `Undefined` renders to
/// empty text.
pub open spec fn spec_constraint_text(c: Constraint) -> Seq<char> {
    match c {
        Constraint::Null => "NULL"@,
        Constraint::NotNull => "NOT NULL"@,
        Constraint::PrimaryKey => "PK"@,
        Constraint::ForeignKey => "FK"@,
        Constraint::Unique => "UNIQUE"@,
        Constraint::Undefined => ""@,
    }
}

impl Constraint {
    /// The fixed short token this constraint renders to.
    pub fn to_text(&self) -> (r: String)
        ensures
            r@ == spec_constraint_text(*self),
    {
        match self {
            Constraint::Null => "NULL".to_owned(),
            Constraint::NotNull => "NOT NULL".to_owned(),
            Constraint::PrimaryKey => "PK".to_owned(),
            Constraint::ForeignKey => "FK".to_owned(),
            Constraint::Unique => "UNIQUE".to_owned(),
            Constraint::Undefined => "".to_owned(),
        }
    }
}

/// The renderable constraint tokens of a column, in declaration order:
/// a constraint whose token is empty is filtered out.
pub open spec fn spec_filtered_tokens(cs: Seq<Constraint>) -> Seq<Seq<char>>
    decreases cs.len(),
{
    if cs.len() == 0 {
        Seq::empty()
    } else {
        let rest = spec_filtered_tokens(cs.drop_last());
        let t = spec_constraint_text(cs.last());
        if t.len() > 0 {
            rest.push(t)
        } else {
            rest
        }
    }
}

/// Text pieces joined with a separator between neighbours.
pub open spec fn spec_join(parts: Seq<Seq<char>>, sep: Seq<char>) -> Seq<char>
    decreases parts.len(),
{
    if parts.len() == 0 {
        Seq::empty()
    } else if parts.len() == 1 {
        parts[0]
    } else {
        spec_join(parts.drop_last(), sep) + sep + parts.last()
    }
}

/// One column line: tab, name, type text, and — only when the column has at
/// least one renderable constraint — the `{constraint: ...}` suffix.
pub open spec fn spec_column_line(c: ColumnDefinitionV) -> Seq<char> {
    let base = "\t"@ + c.name + ": "@ + c.data_type;
    let toks = spec_filtered_tokens(c.constraint);
    if toks.len() == 0 {
        base
    } else {
        base + " {constraint: "@ + spec_join(toks, ", "@) + "}"@
    }
}

/// All column lines of a table, each ended by a newline.
pub open spec fn spec_column_lines(cols: Seq<ColumnDefinitionV>) -> Seq<char>
    decreases cols.len(),
{
    if cols.len() == 0 {
        Seq::empty()
    } else {
        spec_column_lines(cols.drop_last()) + spec_column_line(cols.last()) + "\n"@
    }
}

/// One table block: header, the `shape: sql_table` directive, the column
/// lines, and the closing brace. A table with zero columns has no column
/// lines at all.
pub open spec fn spec_table_text(t: D2TableV) -> Seq<char> {
    t.table_name + ": {\n"@ + "\tshape: sql_table\n"@ + spec_column_lines(t.columns) + "}\n"@
}

/// What one compiled statement renders to: its table block, or the fixed
/// diagnostic sentence for an unsupported statement.
pub open spec fn spec_parsed_table_text(p: ParsedTableV) -> Seq<char> {
    match p {
        ParsedTableV::D2Table(t) => spec_table_text(t),
        ParsedTableV::NotSupported
            => "Unsupported SQL statement. Only Created Table statement is supported."@,
    }
}

/// Renders the joined constraint-token suffix content of one column.
fn joined_tokens(col: &ColumnDefinition) -> (r: (String, bool))
    ensures
        r.0@ == spec_join(spec_filtered_tokens(col.constraint@), ", "@),
        r.1 <==> spec_filtered_tokens(col.constraint@).len() == 0,
{
    let mut joined = String::new();
    let mut none_yet = true;
    let mut i: usize = 0;
    while i < col.constraint.len()
        invariant
            i <= col.constraint.len(),
            none_yet <==> spec_filtered_tokens(col.constraint@.take(i as int)).len() == 0,
            joined@ == spec_join(spec_filtered_tokens(col.constraint@.take(i as int)), ", "@),
        decreases col.constraint.len() - i,
    {
        let t = col.constraint[i].to_text();
        proof {
            assert(col.constraint@.take(i as int + 1).drop_last() =~= col.constraint@.take(
                i as int,
            ));
            assert(col.constraint@.take(i as int + 1).last() == col.constraint@[i as int]);
            let ft = spec_filtered_tokens(col.constraint@.take(i as int));
            let tv = spec_constraint_text(col.constraint@[i as int]);
            if tv.len() > 0 {
                assert(spec_filtered_tokens(col.constraint@.take(i as int + 1)) == ft.push(tv));
                assert(ft.push(tv).drop_last() =~= ft);
                assert(ft.push(tv).last() == tv);
            }
        }
        if !t.as_str().is_empty() {
            if none_yet {
                joined = t;
                none_yet = false;
            } else {
                joined.append(", ");
                joined.append(t.as_str());
            }
        }
        i += 1;
    }
    proof {
        assert(col.constraint@.take(col.constraint@.len() as int) =~= col.constraint@);
    }
    (joined, none_yet)
}

/// Renders one column line.
fn column_line(col: &ColumnDefinition) -> (r: String)
    ensures
        r@ == spec_column_line(col@),
{
    let (joined, empty) = joined_tokens(col);
    let mut line = String::new();
    line.append("\t");
    line.append(col.name.as_str());
    line.append(": ");
    line.append(col.data_type.as_str());
    if !empty {
        line.append(" {constraint: ");
        line.append(joined.as_str());
        line.append("}");
    }
    proof {
        assert(line@ =~= spec_column_line(col@));
    }
    line
}

impl D2Table {
    /// Renders this table's block.
    pub fn to_text(&self) -> (r: String)
        ensures
            r@ == spec_table_text(self@),
    {
        let ghost cviews = column_defs_view(self.columns@);
        let mut out = self.table_name.clone();
        out.append(": {\n");
        out.append("\tshape: sql_table\n");
        let ghost header = self.table_name@ + ": {\n"@ + "\tshape: sql_table\n"@;
        assert(out@ =~= header);
        let mut i: usize = 0;
        while i < self.columns.len()
            invariant
                i <= self.columns.len(),
                cviews == column_defs_view(self.columns@),
                header == self.table_name@ + ": {\n"@ + "\tshape: sql_table\n"@,
                out@ =~= header + spec_column_lines(cviews.take(i as int)),
            decreases self.columns.len() - i,
        {
            let l = column_line(&self.columns[i]);
            out.append(l.as_str());
            out.append("\n");
            proof {
                assert(cviews.take(i as int + 1).drop_last() =~= cviews.take(i as int));
                assert(cviews.take(i as int + 1).last() == cviews[i as int]);
                assert(l@ == spec_column_line(cviews[i as int]));
            }
            i += 1;
        }
        proof {
            assert(cviews.take(self.columns@.len() as int) =~= cviews);
        }
        out.append("}\n");
        proof {
            assert(out@ =~= spec_table_text(self@));
        }
        out
    }
}

impl ParsedTable {
    /// Renders one compiled statement: a table block, or the fixed sentence
    /// for an unsupported statement.
    pub fn to_text(&self) -> (r: String)
        ensures
            r@ == spec_parsed_table_text(self@),
    {
        match self {
            ParsedTable::D2Table(t) => t.to_text(),
            ParsedTable::NotSupported
                => "Unsupported SQL statement. Only Created Table statement is supported.".to_owned(),
        }
    }
}

/// One relationship edge directive, ended by a newline.
pub open spec fn spec_edge_line(e: RelationEntryV) -> Seq<char> {
    e.key.table + "."@ + e.key.column + " -> "@ + e.target.foreign_table + "."@
        + e.target.referred_column + "\n"@
}

/// The edge directives of one relationship index, in index order.
pub open spec fn spec_edge_lines(es: Seq<RelationEntryV>) -> Seq<char>
    decreases es.len(),
{
    if es.len() == 0 {
        Seq::empty()
    } else {
        spec_edge_lines(es.drop_last()) + spec_edge_line(es.last())
    }
}

/// The edge directives one compiled statement contributes.
pub open spec fn spec_table_edges(p: ParsedTableV) -> Seq<char> {
    match p {
        ParsedTableV::D2Table(t) => spec_edge_lines(t.relationships),
        ParsedTableV::NotSupported => Seq::empty(),
    }
}

/// All edge directives, in table order.
pub open spec fn spec_all_edges(ts: Seq<ParsedTableV>) -> Seq<char>
    decreases ts.len(),
{
    if ts.len() == 0 {
        Seq::empty()
    } else {
        spec_all_edges(ts.drop_last()) + spec_table_edges(ts.last())
    }
}

/// The whole document: the table blocks joined by a newline, then every
/// table's relationship edges, one line each, in table order.
pub open spec fn spec_document_text(ts: Seq<ParsedTableV>) -> Seq<char> {
    spec_join(ts.map_values(|p: ParsedTableV| spec_parsed_table_text(p)), "\n"@)
        + spec_all_edges(ts)
}

/// Renders one edge directive.
fn edge_line(e: &RelationEntry) -> (r: String)
    ensures
        r@ == spec_edge_line(e@),
{
    let mut line = String::new();
    line.append(e.key.table.as_str());
    line.append(".");
    line.append(e.key.column.as_str());
    line.append(" -> ");
    line.append(e.target.foreign_table.as_str());
    line.append(".");
    line.append(e.target.referred_column.as_str());
    line.append("\n");
    proof {
        assert(line@ =~= spec_edge_line(e@));
    }
    line
}

/// Renders a compiled document: independent table blocks joined by a newline
/// in statement order, then one edge directive per resolved relationship.
pub fn render_document(tables: &Vec<ParsedTable>) -> (r: String)
    ensures
        r@ == spec_document_text(parsed_tables_view(tables@)),
{
    let ghost tviews = parsed_tables_view(tables@);
    let ghost blocks = tviews.map_values(|p: ParsedTableV| spec_parsed_table_text(p));
    let mut out = String::new();
    let mut i: usize = 0;
    while i < tables.len()
        invariant
            i <= tables.len(),
            tviews == parsed_tables_view(tables@),
            blocks == tviews.map_values(|p: ParsedTableV| spec_parsed_table_text(p)),
            out@ == spec_join(blocks.take(i as int), "\n"@),
        decreases tables.len() - i,
    {
        if i > 0 {
            out.append("\n");
        }
        let b = tables[i].to_text();
        out.append(b.as_str());
        proof {
            assert(blocks.take(i as int + 1).drop_last() =~= blocks.take(i as int));
            assert(blocks.take(i as int + 1).last() == blocks[i as int]);
            assert(b@ == blocks[i as int]);
        }
        i += 1;
    }
    proof {
        assert(blocks.take(tables@.len() as int) =~= blocks);
    }
    let ghost joined = out@;
    let mut k: usize = 0;
    while k < tables.len()
        invariant
            k <= tables.len(),
            tviews == parsed_tables_view(tables@),
            out@ == joined + spec_all_edges(tviews.take(k as int)),
        decreases tables.len() - k,
    {
        proof {
            assert(tviews.take(k as int + 1).drop_last() =~= tviews.take(k as int));
            assert(tviews.take(k as int + 1).last() == tviews[k as int]);
        }
        match &tables[k] {
            ParsedTable::D2Table(t) => {
                let ghost es = entries_view(t.relationships.entries@);
                assert(spec_table_edges(tviews[k as int]) == spec_edge_lines(es));
                let ghost base = out@;
                let mut p: usize = 0;
                while p < t.relationships.entries.len()
                    invariant
                        p <= t.relationships.entries.len(),
                        es == entries_view(t.relationships.entries@),
                        out@ == base + spec_edge_lines(es.take(p as int)),
                    decreases t.relationships.entries.len() - p,
                {
                    let l = edge_line(&t.relationships.entries[p]);
                    out.append(l.as_str());
                    proof {
                        assert(es.take(p as int + 1).drop_last() =~= es.take(p as int));
                        assert(es.take(p as int + 1).last() == es[p as int]);
                        assert(l@ == spec_edge_line(es[p as int]));
                        assert(base + spec_edge_lines(es.take(p as int)) + spec_edge_line(
                            es[p as int],
                        ) =~= base + spec_edge_lines(es.take(p as int + 1)));
                    }
                    p += 1;
                }
                proof {
                    assert(es.take(t.relationships.entries@.len() as int) =~= es);
                    assert(out@ =~= joined + spec_all_edges(tviews.take(k as int + 1)));
                }
            },
            ParsedTable::NotSupported => {
                proof {
                    assert(out@ =~= joined + spec_all_edges(tviews.take(k as int + 1)));
                }
            },
        }
        k += 1;
    }
    proof {
        assert(tviews.take(tables@.len() as int) =~= tviews);
    }
    out
}

} // verus!

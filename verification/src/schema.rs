//! The normalized relational schema model and the normalizers that build it
//! from the narrow statement AST: constraint classification, column
//! normalization, foreign-key relationship resolution, and table
//! normalization.

use vstd::prelude::*;

use crate::ast::{
    ColumnAst, ColumnAstV, ColumnOptionAst, StatementAst, StatementAstV, TableConstraintAst,
    TableConstraintAstV, constraint_ast_wf, statement_ast_wf,
};

verus! {

/// The closed constraint taxonomy. `Undefined` is the catch-all for
/// unrecognized option kinds, so unsupported SQL extensions never abort
/// compilation.
#[derive(Clone, Copy, Debug, PartialEq, Eq, Structural)]
pub enum Constraint {
    Null,
    NotNull,
    PrimaryKey,
    ForeignKey,
    Unique,
    Undefined,
}

/// One normalized column: name, rendered type text, and its classified
/// constraints in declaration order (duplicates are kept).
#[derive(Clone, Debug, PartialEq)]
pub struct ColumnDefinition {
    pub name: String,
    pub data_type: String,
    pub constraint: Vec<Constraint>,
}

/// Mathematical image of a `ColumnDefinition`.
#[verifier::ext_equal]
pub struct ColumnDefinitionV {
    pub name: Seq<char>,
    pub data_type: Seq<char>,
    pub constraint: Seq<Constraint>,
}

impl View for ColumnDefinition {
    type V = ColumnDefinitionV;

    open spec fn view(&self) -> ColumnDefinitionV {
        ColumnDefinitionV {
            name: self.name@,
            data_type: self.data_type@,
            constraint: self.constraint@,
        }
    }
}

pub open spec fn column_defs_view(v: Seq<ColumnDefinition>) -> Seq<ColumnDefinitionV> {
    v.map_values(|c: ColumnDefinition| c@)
}

/// One column of one table: the key of the relationship index.
#[derive(Clone, Debug, PartialEq, Eq, Hash)]
pub struct ParentTable {
    pub table: String,
    pub column: String,
}

/// Mathematical image of a `ParentTable`.
#[verifier::ext_equal]
pub struct ParentTableV {
    pub table: Seq<char>,
    pub column: Seq<char>,
}

impl View for ParentTable {
    type V = ParentTableV;

    open spec fn view(&self) -> ParentTableV {
        ParentTableV { table: self.table@, column: self.column@ }
    }
}

/// The column a foreign key references.
#[derive(Clone, Debug, PartialEq, Eq, Hash)]
pub struct ReferencedTable {
    pub foreign_table: String,
    pub referred_column: String,
}

/// Mathematical image of a `ReferencedTable`.
#[verifier::ext_equal]
pub struct ReferencedTableV {
    pub foreign_table: Seq<char>,
    pub referred_column: Seq<char>,
}

impl View for ReferencedTable {
    type V = ReferencedTableV;

    open spec fn view(&self) -> ReferencedTableV {
        ReferencedTableV {
            foreign_table: self.foreign_table@,
            referred_column: self.referred_column@,
        }
    }
}

/// A referenced table and column, kept as plain text.
#[derive(Clone, Debug, PartialEq)]
pub struct ForeignKeyInfo {
    pub foreign_table: String,
    pub referred_columns: String,
}

/// One resolved relationship: an owning column and the column it references.
#[derive(Clone, Debug, PartialEq)]
pub struct RelationEntry {
    pub key: ParentTable,
    pub target: ReferencedTable,
}

/// Mathematical image of a `RelationEntry`.
#[verifier::ext_equal]
pub struct RelationEntryV {
    pub key: ParentTableV,
    pub target: ReferencedTableV,
}

impl View for RelationEntry {
    type V = RelationEntryV;

    open spec fn view(&self) -> RelationEntryV {
        RelationEntryV { key: self.key@, target: self.target@ }
    }
}

pub open spec fn entries_view(v: Seq<RelationEntry>) -> Seq<RelationEntryV> {
    v.map_values(|e: RelationEntry| e@)
}

/// Inserting an entry overwrites the first entry with the same key, in place;
/// a fresh key is appended.
pub open spec fn spec_rel_insert(s: Seq<RelationEntryV>, e: RelationEntryV) -> Seq<RelationEntryV>
    decreases s.len(),
{
    if s.len() == 0 {
        seq![e]
    } else if s[0].key == e.key {
        seq![e] + s.drop_first()
    } else {
        seq![s[0]] + spec_rel_insert(s.drop_first(), e)
    }
}

/// Inserting a batch of entries, left to right.
pub open spec fn spec_rel_insert_all(
    s: Seq<RelationEntryV>,
    es: Seq<RelationEntryV>,
) -> Seq<RelationEntryV>
    decreases es.len(),
{
    if es.len() == 0 {
        s
    } else {
        spec_rel_insert(spec_rel_insert_all(s, es.drop_last()), es.last())
    }
}

/// Keys are unique: at most one resolved target per owning column.
pub open spec fn rel_entries_wf(s: Seq<RelationEntryV>) -> bool {
    forall|i: int, j: int| 0 <= i < j < s.len() ==> s[i].key != s[j].key
}

/// Inserting keeps the keys unique and introduces no key but the inserted one.
pub(crate) proof fn lemma_insert_preserves_unique(s: Seq<RelationEntryV>, e: RelationEntryV)
    requires
        rel_entries_wf(s),
    ensures
        rel_entries_wf(spec_rel_insert(s, e)),
        forall|k: int|
            0 <= k < spec_rel_insert(s, e).len() ==> spec_rel_insert(s, e)[k].key == e.key
                || exists|j: int| 0 <= j < s.len() && s[j].key == spec_rel_insert(s, e)[k].key,
    decreases s.len(),
{
    let r = spec_rel_insert(s, e);
    if s.len() == 0 {
    } else if s[0].key == e.key {
        assert forall|k: int| 0 <= k < r.len() implies r[k].key == e.key || exists|j: int|
            0 <= j < s.len() && s[j].key == r[k].key by {
            if k > 0 {
                assert(r[k] == s[k]);
                assert(s[k].key == r[k].key);
            }
        }
    } else {
        let t = s.drop_first();
        assert(rel_entries_wf(t)) by {
            assert(forall|i: int| 0 <= i < t.len() ==> t[i] == s[i + 1]);
        }
        lemma_insert_preserves_unique(t, e);
        let rt = spec_rel_insert(t, e);
        assert(r == seq![s[0]] + rt);
        assert forall|k: int| 0 <= k < r.len() implies r[k].key == e.key || exists|j: int|
            0 <= j < s.len() && s[j].key == r[k].key by {
            if k == 0 {
                assert(s[0].key == r[0].key);
            } else {
                assert(r[k] == rt[k - 1]);
                if rt[k - 1].key != e.key {
                    let j = choose|j: int| 0 <= j < t.len() && t[j].key == rt[k - 1].key;
                    assert(s[j + 1].key == r[k].key);
                }
            }
        }
        assert forall|i: int, j: int| 0 <= i < j < r.len() implies r[i].key != r[j].key by {
            if i == 0 {
                // every key of the tail insertion is either the fresh key or
                // one of the tail's keys, and both differ from the head's
                assert(r[j] == rt[j - 1]);
                if rt[j - 1].key != e.key {
                    let q = choose|q: int| 0 <= q < t.len() && t[q].key == rt[j - 1].key;
                    assert(s[q + 1].key == rt[j - 1].key);
                }
            } else {
                assert(r[i] == rt[i - 1]);
                assert(r[j] == rt[j - 1]);
            }
        }
    }
}

/// Inserting a batch keeps the keys unique.
pub(crate) proof fn lemma_insert_all_preserves_unique(
    s: Seq<RelationEntryV>,
    es: Seq<RelationEntryV>,
)
    requires
        rel_entries_wf(s),
    ensures
        rel_entries_wf(spec_rel_insert_all(s, es)),
    decreases es.len(),
{
    if es.len() > 0 {
        lemma_insert_all_preserves_unique(s, es.drop_last());
        lemma_insert_preserves_unique(spec_rel_insert_all(s, es.drop_last()), es.last());
    }
}

/// The per-table relationship index: a mapping from an owning column to the
/// foreign column it references, keys unique. A later insertion with the same
/// key silently overwrites the earlier target.
#[derive(Clone, Debug, PartialEq)]
pub struct RelationshipIndex {
    pub entries: Vec<RelationEntry>,
}

impl View for RelationshipIndex {
    type V = Seq<RelationEntryV>;

    open spec fn view(&self) -> Seq<RelationEntryV> {
        entries_view(self.entries@)
    }
}

proof fn lemma_rel_insert_prefix(s: Seq<RelationEntryV>, e: RelationEntryV, i: int)
    requires
        0 <= i <= s.len(),
        forall|j: int| 0 <= j < i ==> s[j].key != e.key,
    ensures
        spec_rel_insert(s, e) == s.take(i) + spec_rel_insert(s.skip(i), e),
    decreases i,
{
    if i == 0 {
        assert(s.take(0) =~= Seq::<RelationEntryV>::empty());
        assert(s.skip(0) =~= s);
        assert(s.take(0) + spec_rel_insert(s, e) =~= spec_rel_insert(s, e));
    } else {
        let t = s.drop_first();
        lemma_rel_insert_prefix(t, e, i - 1);
        assert(t.take(i - 1) =~= s.take(i).drop_first());
        assert(t.skip(i - 1) =~= s.skip(i));
        assert(spec_rel_insert(s, e) == seq![s[0]] + spec_rel_insert(t, e));
        assert(seq![s[0]] + (t.take(i - 1) + spec_rel_insert(t.skip(i - 1), e)) =~= s.take(i)
            + spec_rel_insert(s.skip(i), e));
    }
}

impl RelationshipIndex {
    /// An empty index.
    pub fn new() -> (r: Self)
        ensures
            r@ =~= Seq::<RelationEntryV>::empty(),
    {
        RelationshipIndex { entries: Vec::new() }
    }

    /// The number of resolved relationships.
    pub fn len(&self) -> (n: usize)
        ensures
            n == self@.len(),
    {
        self.entries.len()
    }

    /// Inserts one relationship; an entry with the same owning column is
    /// overwritten in place, a fresh key is appended.
    pub fn insert(&mut self, key: ParentTable, target: ReferencedTable)
        ensures
            final(self)@ == spec_rel_insert(
                old(self)@,
                RelationEntryV { key: key@, target: target@ },
            ),
    {
        let ghost e = RelationEntryV { key: key@, target: target@ };
        let ghost s = self@;
        let n = self.entries.len();
        // first pass: the position of the first entry with the same key, n if none
        let mut pos: usize = n;
        let mut i: usize = 0;
        while i < n
            invariant
                i <= n,
                n == self.entries.len(),
                self == old(self),
                s == self@,
                e == (RelationEntryV { key: key@, target: target@ }),
                pos <= n,
                pos == n ==> forall|j: int| 0 <= j < i ==> s[j].key != e.key,
                pos < n ==> pos < i && s[pos as int].key == e.key && forall|j: int|
                    0 <= j < pos ==> s[j].key != e.key,
            decreases n - i,
        {
            if pos == n && eq_parent(&self.entries[i].key, &key) {
                pos = i;
            }
            i += 1;
        }
        // second pass: copy, replacing at pos (or appending if no key matched)
        let mut out: Vec<RelationEntry> = Vec::new();
        let mut k: usize = 0;
        while k < n
            invariant
                k <= n,
                n == self.entries.len(),
                self == old(self),
                s == self@,
                e == (RelationEntryV { key: key@, target: target@ }),
                pos <= n,
                pos < n ==> s[pos as int].key == e.key && forall|j: int|
                    0 <= j < pos ==> s[j].key != e.key,
                pos == n ==> forall|j: int| 0 <= j < n ==> s[j].key != e.key,
                pos < n && k > pos ==> entries_view(out@) =~= s.take(k as int).update(
                    pos as int,
                    e,
                ),
                (pos == n || k <= pos) ==> entries_view(out@) =~= s.take(k as int),
            decreases n - k,
        {
            let ghost pre = out@;
            if k == pos {
                let fresh = RelationEntry {
                    key: clone_parent(&key),
                    target: clone_referenced(&target),
                };
                assert(fresh@ == e);
                out.push(fresh);
            } else {
                let copy = clone_entry(&self.entries[k]);
                assert(copy@ == s[k as int]);
                out.push(copy);
            }
            proof {
                if k == pos {
                    assert(entries_view(out@) =~= entries_view(pre).push(e));
                    assert(entries_view(out@) =~= s.take(k as int + 1).update(pos as int, e));
                } else {
                    assert(entries_view(out@) =~= entries_view(pre).push(s[k as int]));
                    if pos < n && k > pos {
                        assert(entries_view(out@) =~= s.take(k as int + 1).update(pos as int, e));
                    } else {
                        assert(entries_view(out@) =~= s.take(k as int + 1));
                    }
                }
            }
            k += 1;
        }
        proof {
            assert(s.take(n as int) =~= s);
        }
        if pos == n {
            out.push(RelationEntry { key, target });
            proof {
                lemma_rel_insert_prefix(s, e, n as int);
                assert(s.skip(n as int) =~= Seq::<RelationEntryV>::empty());
                assert(spec_rel_insert(s.skip(n as int), e) == seq![e]);
                assert(entries_view(out@) =~= s + seq![e]);
                assert(spec_rel_insert(s, e) =~= s + seq![e]);
            }
        } else {
            proof {
                lemma_rel_insert_prefix(s, e, pos as int);
                assert(s.skip(pos as int)[0] == s[pos as int]);
                assert(spec_rel_insert(s.skip(pos as int), e) == seq![e] + s.skip(
                    pos as int,
                ).drop_first());
                assert(s.skip(pos as int).drop_first() =~= s.skip(pos as int + 1));
                assert(spec_rel_insert(s, e) =~= s.update(pos as int, e));
                assert(entries_view(out@) =~= s.update(pos as int, e));
            }
        }
        self.entries = out;
    }
}

/// Whether two owning-column keys are the same table and column.
fn eq_parent(a: &ParentTable, b: &ParentTable) -> (r: bool)
    ensures
        r == (a@ == b@),
{
    let r = a.table == b.table && a.column == b.column;
    proof {
        if a.table@ == b.table@ && a.column@ == b.column@ {
            assert(a@ =~= b@);
        }
    }
    r
}

fn clone_parent(p: &ParentTable) -> (r: ParentTable)
    ensures
        r@ == p@,
{
    ParentTable { table: p.table.clone(), column: p.column.clone() }
}

fn clone_referenced(t: &ReferencedTable) -> (r: ReferencedTable)
    ensures
        r@ == t@,
{
    ReferencedTable {
        foreign_table: t.foreign_table.clone(),
        referred_column: t.referred_column.clone(),
    }
}

fn clone_entry(x: &RelationEntry) -> (r: RelationEntry)
    ensures
        r@ == x@,
{
    RelationEntry { key: clone_parent(&x.key), target: clone_referenced(&x.target) }
}

/// One normalized table: name, columns in declaration order, and the resolved
/// foreign-key relationships of this table alone.
#[derive(Clone, Debug, PartialEq)]
pub struct D2Table {
    pub table_name: String,
    pub columns: Vec<ColumnDefinition>,
    pub relationships: RelationshipIndex,
}

/// Mathematical image of a `D2Table`.
#[verifier::ext_equal]
pub struct D2TableV {
    pub table_name: Seq<char>,
    pub columns: Seq<ColumnDefinitionV>,
    pub relationships: Seq<RelationEntryV>,
}

impl View for D2Table {
    type V = D2TableV;

    open spec fn view(&self) -> D2TableV {
        D2TableV {
            table_name: self.table_name@,
            columns: column_defs_view(self.columns@),
            relationships: self.relationships@,
        }
    }
}

/// The outcome of normalizing one statement: a normalized table, or the
/// marker for a statement kind this compiler does not support.
#[derive(Clone, Debug, PartialEq)]
pub enum ParsedTable {
    D2Table(D2Table),
    NotSupported,
}

/// Mathematical image of a `ParsedTable`.
#[verifier::ext_equal]
pub enum ParsedTableV {
    D2Table(D2TableV),
    NotSupported,
}

impl View for ParsedTable {
    type V = ParsedTableV;

    open spec fn view(&self) -> ParsedTableV {
        match self {
            ParsedTable::D2Table(t) => ParsedTableV::D2Table(t@),
            ParsedTable::NotSupported => ParsedTableV::NotSupported,
        }
    }
}

pub open spec fn parsed_tables_view(v: Seq<ParsedTable>) -> Seq<ParsedTableV> {
    v.map_values(|t: ParsedTable| t@)
}

/// The relationship entries one table constraint contributes: a foreign key
/// pairs its owning and referenced columns positionally, truncated to the
/// shorter list; any other constraint contributes nothing.
pub open spec fn spec_constraint_pairs(owner: Seq<char>, c: TableConstraintAstV) -> Seq<
    RelationEntryV,
> {
    match c {
        TableConstraintAstV::ForeignKey { columns, foreign_table, referred_columns } => {
            let n: nat = if columns.len() <= referred_columns.len() {
                columns.len()
            } else {
                referred_columns.len()
            };
            Seq::new(
                n,
                |i: int|
                    RelationEntryV {
                        key: ParentTableV { table: owner, column: columns[i] },
                        target: ReferencedTableV {
                            foreign_table: foreign_table[0],
                            referred_column: referred_columns[i],
                        },
                    },
            )
        },
        TableConstraintAstV::Other => Seq::empty(),
    }
}

/// All of a table's constraints folded into one index, in declaration order;
/// a later constraint's target overwrites an earlier one with the same key.
pub open spec fn spec_table_relationships(
    owner: Seq<char>,
    cs: Seq<TableConstraintAstV>,
) -> Seq<RelationEntryV>
    decreases cs.len(),
{
    if cs.len() == 0 {
        Seq::empty()
    } else {
        spec_rel_insert_all(
            spec_table_relationships(owner, cs.drop_last()),
            spec_constraint_pairs(owner, cs.last()),
        )
    }
}

/// What normalizing one statement yields: a table record for a
/// `CREATE TABLE` (name = first identifier segment), the unsupported marker
/// for everything else.
pub open spec fn spec_compile_stmt(s: StatementAstV) -> ParsedTableV {
    match s {
        StatementAstV::CreateTable { name, columns, constraints } => {
            ParsedTableV::D2Table(
                D2TableV {
                    table_name: name[0],
                    columns: columns.map_values(|c: ColumnAstV| spec_normalize_column(c)),
                    relationships: spec_table_relationships(name[0], constraints),
                },
            )
        },
        StatementAstV::Other => ParsedTableV::NotSupported,
    }
}

/// Inserts every column pair of one constraint into the index, in order.
fn add_constraint_pairs(
    rels: &mut RelationshipIndex,
    owner: &String,
    constraint: &TableConstraintAst,
)
    requires
        constraint_ast_wf(constraint@),
    ensures
        final(rels)@ == spec_rel_insert_all(
            old(rels)@,
            spec_constraint_pairs(owner@, constraint@),
        ),
{
    let ghost pairs = spec_constraint_pairs(owner@, constraint@);
    let ghost acc = rels@;
    match constraint {
        TableConstraintAst::ForeignKey { columns, foreign_table, referred_columns } => {
            let ft0: &String = &foreign_table[0];
            let m: usize = if columns.len() <= referred_columns.len() {
                columns.len()
            } else {
                referred_columns.len()
            };
            assert(pairs.len() == m);
            let mut p: usize = 0;
            while p < m
                invariant
                    p <= m,
                    m <= columns.len(),
                    m <= referred_columns.len(),
                    pairs == spec_constraint_pairs(owner@, constraint@),
                    pairs.len() == m,
                    constraint matches TableConstraintAst::ForeignKey {
                        columns: c2,
                        foreign_table: f2,
                        referred_columns: r2,
                    } && c2 == columns && f2 == foreign_table && r2 == referred_columns,
                    foreign_table@.len() >= 1,
                    ft0@ == foreign_table@[0]@,
                    rels@ == spec_rel_insert_all(acc, pairs.take(p as int)),
                decreases m - p,
            {
                let key = ParentTable { table: owner.clone(), column: columns[p].clone() };
                let target = ReferencedTable {
                    foreign_table: ft0.clone(),
                    referred_column: referred_columns[p].clone(),
                };
                assert((RelationEntryV { key: key@, target: target@ }) == pairs[p as int]);
                rels.insert(key, target);
                proof {
                    assert(pairs.take(p as int + 1).drop_last() =~= pairs.take(p as int));
                    assert(pairs.take(p as int + 1).last() == pairs[p as int]);
                }
                p += 1;
            }
            proof {
                assert(pairs.take(m as int) =~= pairs);
            }
        },
        TableConstraintAst::Other => {
            assert(pairs =~= Seq::<RelationEntryV>::empty());
            assert(spec_rel_insert_all(acc, pairs) == acc);
        },
    }
}

/// Resolves one table-level constraint into a relationship index fragment:
/// foreign keys contribute their positional column pairs, every other
/// constraint kind yields an empty index.
pub fn table_relationship(parent_table: String, constraint: TableConstraintAst) -> (r:
    RelationshipIndex)
    requires
        constraint_ast_wf(constraint@),
    ensures
        r@ == spec_rel_insert_all(
            Seq::<RelationEntryV>::empty(),
            spec_constraint_pairs(parent_table@, constraint@),
        ),
{
    let mut rels = RelationshipIndex::new();
    add_constraint_pairs(&mut rels, &parent_table, &constraint);
    rels
}

/// Normalizes one statement: a `CREATE TABLE` becomes a table record whose
/// name is the first identifier segment, whose columns are normalized in
/// order, and whose constraints are folded into one relationship index; any
/// other statement kind becomes the unsupported marker.
pub fn ast_as_d2_spec(ast: StatementAst) -> (r: ParsedTable)
    requires
        statement_ast_wf(ast@),
    ensures
        r@ == spec_compile_stmt(ast@),
{
    let ghost av = ast@;
    match ast {
        StatementAst::CreateTable { name, columns, constraints } => {
            let table_name: String = name[0].clone();
            assert(table_name@ == av->CreateTable_name[0]);
            let mut cols: Vec<ColumnDefinition> = Vec::new();
            let mut i: usize = 0;
            while i < columns.len()
                invariant
                    i <= columns.len(),
                    cols@.len() == i,
                    forall|j: int|
                        0 <= j < i ==> #[trigger] cols@[j]@ == spec_normalize_column(columns@[j]@),
                decreases columns.len() - i,
            {
                cols.push(normalize_column(&columns[i]));
                i += 1;
            }
            let mut rels = RelationshipIndex::new();
            let ghost cviews = crate::ast::constraints_view(constraints@);
            let mut j: usize = 0;
            while j < constraints.len()
                invariant
                    j <= constraints.len(),
                    cviews == crate::ast::constraints_view(constraints@),
                    forall|q: int| 0 <= q < cviews.len() ==> constraint_ast_wf(#[trigger] cviews[q]),
                    rels@ == spec_table_relationships(table_name@, cviews.take(j as int)),
                decreases constraints.len() - j,
            {
                assert(constraints@[j as int]@ == cviews[j as int]);
                assert(constraint_ast_wf(cviews[j as int]));
                add_constraint_pairs(&mut rels, &table_name, &constraints[j]);
                proof {
                    assert(cviews.take(j as int + 1).drop_last() =~= cviews.take(j as int));
                    assert(cviews.take(j as int + 1).last() == cviews[j as int]);
                }
                j += 1;
            }
            proof {
                assert(cviews.take(constraints@.len() as int) =~= cviews);
            }
            let t = D2Table { table_name, columns: cols, relationships: rels };
            let r = ParsedTable::D2Table(t);
            proof {
                assert(column_defs_view(cols@) =~= av->CreateTable_columns.map_values(
                    |c: ColumnAstV| spec_normalize_column(c),
                ));
                assert(r@ =~= spec_compile_stmt(av));
            }
            r
        },
        StatementAst::Other => ParsedTable::NotSupported,
    }
}

/// What one column option means in the constraint taxonomy.
pub open spec fn spec_classify(o: ColumnOptionAst) -> Constraint {
    match o {
        ColumnOptionAst::Null => Constraint::Null,
        ColumnOptionAst::NotNull => Constraint::NotNull,
        ColumnOptionAst::Unique { is_primary } => if is_primary {
            Constraint::PrimaryKey
        } else {
            Constraint::Unique
        },
        ColumnOptionAst::ForeignKey => Constraint::ForeignKey,
        ColumnOptionAst::Other => Constraint::Undefined,
    }
}

/// Maps one column option onto the constraint taxonomy. Total: unrecognized
/// option kinds degrade to `Undefined` rather than failing.
pub fn classify_option(opt: ColumnOptionAst) -> (c: Constraint)
    ensures
        c == spec_classify(opt),
{
    match opt {
        ColumnOptionAst::Null => Constraint::Null,
        ColumnOptionAst::NotNull => Constraint::NotNull,
        ColumnOptionAst::Unique { is_primary } => if is_primary {
            Constraint::PrimaryKey
        } else {
            Constraint::Unique
        },
        ColumnOptionAst::ForeignKey => Constraint::ForeignKey,
        ColumnOptionAst::Other => Constraint::Undefined,
    }
}

/// What a normalized column is: the name and type text carried over, each
/// option classified in order.
pub open spec fn spec_normalize_column(c: ColumnAstV) -> ColumnDefinitionV {
    ColumnDefinitionV {
        name: c.name,
        data_type: c.data_type,
        constraint: c.options.map_values(|o: ColumnOptionAst| spec_classify(o)),
    }
}

/// Normalizes one column declaration. Pure, total, no failure mode.
pub fn normalize_column(col: &ColumnAst) -> (d: ColumnDefinition)
    ensures
        d@ == spec_normalize_column(col@),
{
    let mut cs: Vec<Constraint> = Vec::new();
    let mut i: usize = 0;
    while i < col.options.len()
        invariant
            i <= col.options.len(),
            cs@ =~= col.options@.take(i as int).map_values(|o: ColumnOptionAst| spec_classify(o)),
        decreases col.options.len() - i,
    {
        cs.push(classify_option(col.options[i]));
        proof {
            assert(col.options@.take(i as int + 1).drop_last() =~= col.options@.take(i as int));
            assert(col.options@.take(i as int + 1).map_values(
                |o: ColumnOptionAst| spec_classify(o),
            ) =~= col.options@.take(i as int).map_values(|o: ColumnOptionAst| spec_classify(o)).push(
                spec_classify(col.options@[i as int]),
            ));
        }
        i += 1;
    }
    proof {
        assert(col.options@.take(col.options@.len() as int) =~= col.options@);
    }
    let d = ColumnDefinition {
        name: col.name.clone(),
        data_type: col.data_type.clone(),
        constraint: cs,
    };
    proof {
        assert(d@ =~= spec_normalize_column(col@));
    }
    d
}

} // verus!


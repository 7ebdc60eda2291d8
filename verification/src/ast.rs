//! A narrow statement AST: just the parts of a parsed SQL statement that the
//! schema compiler reads. The SQL parsing collaborator's full grammar is
//! projected onto these types at the parsing boundary.

use vstd::prelude::*;

verus! {

/// One column option as the narrow AST keeps it: nullability, uniqueness
/// (primary or not), a referential option, or anything else.
#[derive(Clone, Copy, Debug, PartialEq, Eq, Structural)]
pub enum ColumnOptionAst {
    Null,
    NotNull,
    Unique { is_primary: bool },
    ForeignKey,
    Other,
}

/// One column declaration: its name, its rendered type text (parameterized
/// types keep their parameters, e.g. `VARCHAR(255)`), and its options in
/// declaration order.
#[derive(Clone, Debug, PartialEq)]
pub struct ColumnAst {
    pub name: String,
    pub data_type: String,
    pub options: Vec<ColumnOptionAst>,
}

/// One table-level constraint. Only foreign keys carry data the compiler
/// needs; every other kind is `Other`. `foreign_table` holds the referenced
/// table's name segments (a qualified name has several).
#[derive(Clone, Debug, PartialEq)]
pub enum TableConstraintAst {
    ForeignKey {
        columns: Vec<String>,
        foreign_table: Vec<String>,
        referred_columns: Vec<String>,
    },
    Other,
}

/// One parsed statement: a `CREATE TABLE` with its name segments, columns and
/// table constraints, or any other statement kind.
#[derive(Clone, Debug, PartialEq)]
pub enum StatementAst {
    CreateTable {
        name: Vec<String>,
        columns: Vec<ColumnAst>,
        constraints: Vec<TableConstraintAst>,
    },
    Other,
}

/// Mathematical image of a `ColumnAst`.
#[verifier::ext_equal]
pub struct ColumnAstV {
    pub name: Seq<char>,
    pub data_type: Seq<char>,
    pub options: Seq<ColumnOptionAst>,
}

/// Mathematical image of a `TableConstraintAst`.
#[verifier::ext_equal]
pub enum TableConstraintAstV {
    ForeignKey {
        columns: Seq<Seq<char>>,
        foreign_table: Seq<Seq<char>>,
        referred_columns: Seq<Seq<char>>,
    },
    Other,
}

/// Mathematical image of a `StatementAst`.
#[verifier::ext_equal]
pub enum StatementAstV {
    CreateTable {
        name: Seq<Seq<char>>,
        columns: Seq<ColumnAstV>,
        constraints: Seq<TableConstraintAstV>,
    },
    Other,
}

pub open spec fn strings_view(v: Seq<String>) -> Seq<Seq<char>> {
    v.map_values(|s: String| s@)
}

impl View for ColumnAst {
    type V = ColumnAstV;

    open spec fn view(&self) -> ColumnAstV {
        ColumnAstV { name: self.name@, data_type: self.data_type@, options: self.options@ }
    }
}

pub open spec fn columns_view(v: Seq<ColumnAst>) -> Seq<ColumnAstV> {
    v.map_values(|c: ColumnAst| c@)
}

impl View for TableConstraintAst {
    type V = TableConstraintAstV;

    open spec fn view(&self) -> TableConstraintAstV {
        match self {
            TableConstraintAst::ForeignKey { columns, foreign_table, referred_columns } => {
                TableConstraintAstV::ForeignKey {
                    columns: strings_view(columns@),
                    foreign_table: strings_view(foreign_table@),
                    referred_columns: strings_view(referred_columns@),
                }
            },
            TableConstraintAst::Other => TableConstraintAstV::Other,
        }
    }
}

pub open spec fn constraints_view(v: Seq<TableConstraintAst>) -> Seq<TableConstraintAstV> {
    v.map_values(|c: TableConstraintAst| c@)
}

impl View for StatementAst {
    type V = StatementAstV;

    open spec fn view(&self) -> StatementAstV {
        match self {
            StatementAst::CreateTable { name, columns, constraints } => {
                StatementAstV::CreateTable {
                    name: strings_view(name@),
                    columns: columns_view(columns@),
                    constraints: constraints_view(constraints@),
                }
            },
            StatementAst::Other => StatementAstV::Other,
        }
    }
}

pub open spec fn statements_view(v: Seq<StatementAst>) -> Seq<StatementAstV> {
    v.map_values(|s: StatementAst| s@)
}

/// A foreign-key constraint always names the table it references: the
/// parsing collaborator's grammar guarantees at least one name segment.
pub open spec fn constraint_ast_wf(c: TableConstraintAstV) -> bool {
    c matches TableConstraintAstV::ForeignKey { foreign_table, .. } ==> foreign_table.len() >= 1
}

/// A `CREATE TABLE` statement always carries a table name; a missing name is
/// a contract violation by the parsing collaborator, not a user error.
pub open spec fn statement_ast_wf(s: StatementAstV) -> bool {
    s matches StatementAstV::CreateTable { name, constraints, .. } ==> name.len() >= 1
        && forall|i: int| 0 <= i < constraints.len() ==> constraint_ast_wf(#[trigger] constraints[i])
}

pub open spec fn statements_wf(ss: Seq<StatementAstV>) -> bool {
    forall|i: int| 0 <= i < ss.len() ==> statement_ast_wf(#[trigger] ss[i])
}

} // verus!

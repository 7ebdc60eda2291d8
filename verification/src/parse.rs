//! The parsing boundary: the external SQL-parsing collaborator is invoked
//! behind one trusted wrapper that projects its AST onto the narrow
//! statement AST, and the verified compiler entry points build on it.

use vstd::prelude::*;

use crate::ast::{
    ColumnAst, ColumnOptionAst, StatementAst, StatementAstV, TableConstraintAst, statements_view,
    statements_wf,
};
use crate::render::{render_document, spec_document_text};
use crate::schema::{ParsedTable, ParsedTableV, parsed_tables_view, spec_compile_stmt,
    ast_as_d2_spec};

verus! {

#[verifier::external_type_specification]
#[verifier::external_body]
pub struct ExStatement(sqlparser::ast::Statement);

#[verifier::external_type_specification]
#[verifier::external_body]
pub struct ExObjectNamePart(sqlparser::ast::ObjectNamePart);

#[verifier::external_type_specification]
#[verifier::external_body]
pub struct ExColumnDef(sqlparser::ast::ColumnDef);

#[verifier::external_type_specification]
#[verifier::external_body]
pub struct ExColumnOptionDef(sqlparser::ast::ColumnOptionDef);

#[verifier::external_type_specification]
#[verifier::external_body]
pub struct ExTableConstraint(sqlparser::ast::TableConstraint);

/// What the SQL parsing collaborator makes of a text, projected onto the
/// narrow statement AST: `None` when it rejects the whole document.
pub uninterp spec fn parse_of(text: Seq<char>) -> Option<Seq<StatementAstV>>;

/// One object-name segment as plain text. Relies on `Ident`'s `value` field
/// (the identifier without quotes); a dialect-specific function segment keeps
/// its rendered text. Part of the `parse_sql_text` projection, which carries
/// the contract.
#[verifier::external_body]
fn part_text(p: sqlparser::ast::ObjectNamePart) -> String {
    match p {
        sqlparser::ast::ObjectNamePart::Identifier(id) => id.value,
        other => other.to_string(),
    }
}

/// One column option projected onto the narrow AST. Relies on the variants of
/// `sqlparser::ast::ColumnOption`, one arm each; `PrimaryKey` and `Unique`
/// are both uniqueness options, told apart by the flag. Part of the
/// `parse_sql_text` projection, which carries the contract.
#[verifier::external_body]
fn convert_option(o: sqlparser::ast::ColumnOptionDef) -> ColumnOptionAst {
    match o.option {
        sqlparser::ast::ColumnOption::Null => ColumnOptionAst::Null,
        sqlparser::ast::ColumnOption::NotNull => ColumnOptionAst::NotNull,
        sqlparser::ast::ColumnOption::Unique(_) => ColumnOptionAst::Unique { is_primary: false },
        sqlparser::ast::ColumnOption::PrimaryKey(_) => ColumnOptionAst::Unique { is_primary: true },
        sqlparser::ast::ColumnOption::ForeignKey(_) => ColumnOptionAst::ForeignKey,
        _ => ColumnOptionAst::Other,
    }
}

/// One column declaration projected onto the narrow AST. Relies on
/// `sqlparser::ast::ColumnDef` and on `DataType`'s rendering for the type
/// text. Part of the `parse_sql_text` projection, which carries the contract.
#[verifier::external_body]
fn convert_column(c: sqlparser::ast::ColumnDef) -> ColumnAst {
    ColumnAst {
        name: c.name.value,
        data_type: c.data_type.to_string(),
        options: c.options.into_iter().map(convert_option).collect(),
    }
}

/// One table constraint projected onto the narrow AST. Relies on
/// `sqlparser::ast::TableConstraint`: only a foreign key carries data the
/// compiler reads. Part of the `parse_sql_text` projection, which carries the
/// contract.
#[verifier::external_body]
fn convert_constraint(c: sqlparser::ast::TableConstraint) -> TableConstraintAst {
    match c {
        sqlparser::ast::TableConstraint::ForeignKey(fk) => TableConstraintAst::ForeignKey {
            columns: fk.columns.into_iter().map(|i| i.value).collect(),
            foreign_table: fk.foreign_table.0.into_iter().map(part_text).collect(),
            referred_columns: fk.referred_columns.into_iter().map(|i| i.value).collect(),
        },
        _ => TableConstraintAst::Other,
    }
}

/// One statement projected onto the narrow AST. Relies on
/// `sqlparser::ast::Statement`: a `CREATE TABLE` keeps its name segments,
/// columns and constraints, everything else is `Other`. Part of the
/// `parse_sql_text` projection, which carries the contract.
#[verifier::external_body]
fn convert_statement(s: sqlparser::ast::Statement) -> StatementAst {
    match s {
        sqlparser::ast::Statement::CreateTable(ct) => StatementAst::CreateTable {
            name: ct.name.0.into_iter().map(part_text).collect(),
            columns: ct.columns.into_iter().map(convert_column).collect(),
            constraints: ct.constraints.into_iter().map(convert_constraint).collect(),
        },
        _ => StatementAst::Other,
    }
}

/// Relies on `sqlparser::parser::Parser::parse_sql` with `GenericDialect`:
/// parsing is a pure function of the input text; an empty text parses to an
/// empty statement list (the statement loop ends at end of input); and every
/// object name its grammar produces has at least one segment
/// (`parse_object_name` always pushes one part before it returns), so every
/// projected statement is well-formed.
#[verifier::external_body]
fn parse_sql_text(raw_str: &str) -> (r: Option<Vec<StatementAst>>)
    ensures
        r is Some <==> parse_of(raw_str@) is Some,
        r matches Some(stmts) ==> parse_of(raw_str@) == Some(statements_view(stmts@)),
        r matches Some(stmts) ==> statements_wf(statements_view(stmts@)),
        r matches Some(stmts) ==> (raw_str@.len() == 0 ==> stmts@.len() == 0),
        r is None ==> raw_str@.len() > 0,
{
    let dialect = sqlparser::dialect::GenericDialect {};
    match sqlparser::parser::Parser::parse_sql(&dialect, raw_str) {
        Ok(stmts) => Some(stmts.into_iter().map(convert_statement).collect()),
        Err(_) => None,
    }
}

/// The outcome of handing a text to the parsing collaborator: its statements
/// in the narrow AST, or the invalid-SQL marker with a fixed message (the
/// collaborator's own diagnostic is discarded by design).
#[derive(Clone, Debug, PartialEq)]
pub enum QueryAst {
    Parsed(Vec<StatementAst>),
    InvalidSQL(String),
}

/// Parses a raw SQL document. The whole document either parses to a statement
/// sequence or is rejected with the fixed generic message.
pub fn parse_query(raw_str: &str) -> (q: QueryAst)
    ensures
        q is Parsed <==> parse_of(raw_str@) is Some,
        q matches QueryAst::Parsed(stmts) ==> parse_of(raw_str@) == Some(statements_view(stmts@))
            && statements_wf(statements_view(stmts@)),
        q matches QueryAst::InvalidSQL(m) ==> m@ == "Invalid SQL statement"@,
        raw_str@.len() == 0 ==> (q matches QueryAst::Parsed(stmts) && stmts@.len() == 0),
{
    match parse_sql_text(raw_str) {
        Some(stmts) => {
            proof {
                if raw_str@.len() == 0 {
                    assert(statements_view(stmts@).len() == 0);
                }
            }
            QueryAst::Parsed(stmts)
        },
        None => QueryAst::InvalidSQL("Invalid SQL statement".to_owned()),
    }
}

/// What compiling a document yields, as a function of the parse outcome:
/// every statement normalized in order, or the fixed generic message.
pub open spec fn spec_compiled_of(text: Seq<char>) -> Result<Seq<ParsedTableV>, Seq<char>> {
    match parse_of(text) {
        Some(ss) => Ok(ss.map_values(|s: StatementAstV| spec_compile_stmt(s))),
        None => Err("Invalid SQL statement"@),
    }
}

/// The image of a compilation result.
pub open spec fn compile_result_view(r: Result<Vec<ParsedTable>, String>) -> Result<
    Seq<ParsedTableV>,
    Seq<char>,
> {
    match r {
        Ok(ts) => Ok(parsed_tables_view(ts@)),
        Err(m) => Err(m@),
    }
}

/// The schema compiler entry point: parses the raw text and normalizes every
/// statement, preserving statement order. One unsupported statement never
/// fails the document; only a total parse failure does.
pub fn compile_query(raw_str: &str) -> (r: Result<Vec<ParsedTable>, String>)
    ensures
        compile_result_view(r) == spec_compiled_of(raw_str@),
        raw_str@.len() == 0 ==> (r matches Ok(ts) && ts@.len() == 0),
{
    match parse_query(raw_str) {
        QueryAst::Parsed(mut stmts) => {
            let ghost sviews = statements_view(stmts@);
            let mut tables: Vec<ParsedTable> = Vec::new();
            while stmts.len() > 0
                invariant
                    tables@.len() + stmts@.len() == sviews.len(),
                    statements_view(stmts@) =~= sviews.skip(tables@.len() as int),
                    statements_wf(sviews),
                    forall|j: int|
                        0 <= j < tables@.len() ==> #[trigger] tables@[j]@ == spec_compile_stmt(
                            sviews[j],
                        ),
                decreases stmts.len(),
            {
                let ghost done = tables@.len() as int;
                let ghost pre = stmts@;
                let s = stmts.remove(0);
                proof {
                    assert(s@ == statements_view(pre)[0]);
                    assert(s@ == sviews[done]);
                    pre.remove_ensures(0);
                    assert(stmts@ =~= pre.skip(1));
                    assert forall|j: int| 0 <= j < stmts@.len() implies statements_view(
                        stmts@,
                    )[j] == sviews[done + 1 + j] by {
                        assert(stmts@[j] == pre[j + 1]);
                        assert(statements_view(pre)[j + 1] == pre[j + 1]@);
                    }
                    assert(statements_view(stmts@) =~= sviews.skip(done + 1));
                }
                let t = ast_as_d2_spec(s);
                tables.push(t);
            }
            proof {
                assert(parsed_tables_view(tables@) =~= sviews.map_values(
                    |s: StatementAstV| spec_compile_stmt(s),
                ));
            }
            Ok(tables)
        },
        QueryAst::InvalidSQL(m) => Err(m),
    }
}

/// What the whole pipeline yields for a text: the rendered document, or the
/// fixed generic message when the document is not valid SQL.
pub open spec fn spec_sql_to_d2(text: Seq<char>) -> Seq<char> {
    match parse_of(text) {
        Some(ss) => spec_document_text(ss.map_values(|s: StatementAstV| spec_compile_stmt(s))),
        None => "Invalid SQL statement"@,
    }
}

/// The whole pipeline: parse, normalize every statement, render the document.
pub fn sql_to_d2(raw_str: &str) -> (r: String)
    ensures
        r@ == spec_sql_to_d2(raw_str@),
{
    match compile_query(raw_str) {
        Ok(ts) => render_document(&ts),
        Err(m) => m,
    }
}

} // verus!

//! SQL syntax validation before submission: the statement text is parsed
//! with the ANSI dialect, and a plain SELECT without a FROM clause is
//! accepted only when every projection is a bare literal or function —
//! the special SELECTs that need no table.

use crate::text;
use sqlparser::ast::Expr;
use sqlparser::ast::SelectItem;
use sqlparser::ast::SetExpr;
use sqlparser::ast::Statement;
use vstd::prelude::*;
use vstd::string::StringExecFns;

verus! {

/// The shape of one parsed statement, as far as validation reads it.
pub enum StatementShape {
    /// A query whose body is a plain SELECT: how many FROM items it has
    /// and, for each projection, whether it is a bare literal or function
    /// expression.
    Select { from_count: usize, special_projections: Vec<bool> },
    /// A query with another body (a union, a parenthesized query, ...).
    OtherQuery,
    /// A statement that is not a query.
    NotQuery,
}

/// What the SQL parser finds in a statement text: the shape of each
/// statement when the text parses, nothing otherwise.
pub uninterp spec fn parsed_statements(q: Seq<char>) -> Option<Seq<StatementShape>>;

/// Relies on sqlparser's `Parser::parse_sql` with the ANSI dialect: whether
/// the text parses, and the statements it parses to, depend on the text
/// alone.
#[verifier::external_body]
fn parse_statements(q: &str) -> (r: Option<Vec<StatementShape>>)
    ensures
        match r {
            Some(shapes) => parsed_statements(q@) == Some(shapes@),
            None => parsed_statements(q@) is None,
        },
{
    let special = |p: &SelectItem| matches!(p, SelectItem::UnnamedExpr(Expr::Value(_)) | SelectItem::UnnamedExpr(Expr::Function(_)));
    let shape = |s: &Statement| match s {
        Statement::Query(b) => match b.body.as_ref() {
            SetExpr::Select(sel) => StatementShape::Select { from_count: sel.from.len(), special_projections: sel.projection.iter().map(special).collect() },
            _ => StatementShape::OtherQuery,
        },
        _ => StatementShape::NotQuery,
    };
    let parsed = sqlparser::parser::Parser::parse_sql(&sqlparser::dialect::AnsiDialect {}, q);
    parsed.ok().map(|stmts| stmts.iter().map(shape).collect())
}

/// A statement passes validation: a plain SELECT must have a FROM item or
/// some special projection; every other statement passes.
pub open spec fn statement_ok(s: StatementShape) -> bool {
    match s {
        StatementShape::Select { from_count, special_projections } => {
            from_count > 0 || exists|i: int|
                0 <= i < special_projections@.len() && special_projections@[i]
        },
        _ => true,
    }
}

/// Every statement passes validation.
pub open spec fn statements_ok(shapes: Seq<StatementShape>) -> bool {
    forall|i: int| 0 <= i < shapes.len() ==> statement_ok(#[trigger] shapes[i])
}

/// A statement text is valid: it parses, and every statement passes.
pub open spec fn query_syntax_valid(q: Seq<char>) -> bool {
    match parsed_statements(q) {
        Some(shapes) => statements_ok(shapes),
        None => false,
    }
}

/// Whether any projection is special.
fn any_special(v: &Vec<bool>) -> (r: bool)
    ensures
        r == exists|i: int| 0 <= i < v@.len() && v@[i],
{
    let n = v.len();
    let mut i: usize = 0;
    while i < n
        invariant
            0 <= i <= n,
            n == v@.len(),
            forall|j: int| 0 <= j < i ==> !v@[j],
        decreases n - i,
    {
        if v[i] {
            return true;
        }
        i += 1;
    }
    false
}

/// Whether every parsed statement passes validation.
fn validate_statements(shapes: &Vec<StatementShape>) -> (r: bool)
    ensures
        r == statements_ok(shapes@),
{
    let n = shapes.len();
    let mut i: usize = 0;
    while i < n
        invariant
            0 <= i <= n,
            n == shapes@.len(),
            forall|j: int| 0 <= j < i ==> statement_ok(#[trigger] shapes@[j]),
        decreases n - i,
    {
        match &shapes[i] {
            StatementShape::Select { from_count, special_projections } => {
                if *from_count == 0 && !any_special(special_projections) {
                    return false;
                }
            },
            StatementShape::OtherQuery => {},
            StatementShape::NotQuery => {},
        }
        i += 1;
    }
    true
}

/// Validate the syntax of a statement text: `Ok` exactly when the text
/// parses under the ANSI dialect and every plain SELECT either has a FROM
/// clause or only special projections.
pub fn validate_query_syntax(query: &str) -> (r: Result<(), String>)
    ensures
        match r {
            Ok(_) => query_syntax_valid(query@),
            Err(m) => !query_syntax_valid(query@) && m@ == (if parsed_statements(query@)
                is None {
                "failed to parse query: "@ + query@
            } else {
                "SELECT query missing FROM clause"@
            }),
        },
{
    match parse_statements(query) {
        None => Err(text::concat2("failed to parse query: ", query)),
        Some(shapes) => {
            if validate_statements(&shapes) {
                Ok(())
            } else {
                Err("SELECT query missing FROM clause".to_owned())
            }
        },
    }
}

} // verus!

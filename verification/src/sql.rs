//! The shape of the SQL statements that store a record, shared by users,
//! files and file links.
use vstd::prelude::*;

verus! {

/// The database flavours that the statements are written for.
#[derive(Debug, Clone, Copy, PartialEq, Eq)]
pub enum Dialect {
    Sqlite,
    Mssql,
}

/// The parts joined with `sep` between consecutive parts (as `join`).
pub open spec fn joined(parts: Seq<Seq<char>>, sep: Seq<char>) -> Seq<char>
    decreases parts.len(),
{
    if parts.len() == 0 {
        seq![]
    } else if parts.len() == 1 {
        parts[0]
    } else {
        joined(parts.drop_last(), sep) + sep + parts.last()
    }
}

/// The views of a list of strings.
pub open spec fn views(v: Seq<String>) -> Seq<Seq<char>> {
    v.map_values(|s: String| s@)
}

/// Joins strings with a separator.
pub fn join(parts: &Vec<String>, sep: &str) -> (r: String)
    ensures
        r@ == joined(views(parts@), sep@),
{
    let mut r = String::new();
    let n = parts.len();
    let mut i: usize = 0;
    while i < n
        invariant
            n == parts@.len(),
            i <= n,
            r@ == joined(views(parts@).take(i as int), sep@),
        decreases n - i,
    {
        if i > 0 {
            r.append(sep);
        }
        r.append(parts[i].as_str());
        proof {
            let t = views(parts@).take(i + 1);
            assert(t.drop_last() =~= views(parts@).take(i as int));
            assert(t.last() == parts@[i as int]@);
        }
        i = i + 1;
    }
    assert(views(parts@).take(n as int) =~= views(parts@));
    r
}

/// A text value as an SQL string literal: between single quotes.
pub open spec fn sql_quoted(s: Seq<char>) -> Seq<char> {
    "'"@ + s + "'"@
}

/// Writes a text value as an SQL string literal (no escaping, as stored).
pub fn sql_quote(s: &str) -> (r: String)
    ensures
        r@ == sql_quoted(s@),
{
    let mut r = String::from_str("'");
    r.append(s);
    r.append("'");
    r
}

/// An optional text value in SQL: `NULL`, or the quoted text.
pub open spec fn sql_optional(o: Option<Seq<char>>) -> Seq<char> {
    match o {
        None => "NULL"@,
        Some(s) => sql_quoted(s),
    }
}

/// The view of an optional string.
pub open spec fn option_view(o: Option<String>) -> Option<Seq<char>> {
    match o {
        None => None,
        Some(s) => Some(s@),
    }
}

/// Writes an optional text value in SQL.
pub fn sql_optional_text(o: &Option<String>) -> (r: String)
    ensures
        r@ == sql_optional(option_view(*o)),
{
    match o {
        None => String::from_str("NULL"),
        Some(s) => sql_quote(s.as_str()),
    }
}

/// The statement that inserts a record and gives it back.
pub open spec fn insert_statement_text(
    dialect: Dialect,
    table: Seq<char>,
    columns: Seq<Seq<char>>,
    values: Seq<Seq<char>>,
) -> Seq<char> {
    match dialect {
        Dialect::Sqlite => "INSERT INTO "@ + table + " ("@ + joined(columns, ", "@) + ") VALUES ("@
            + joined(values, ","@) + ") RETURNING *"@,
        Dialect::Mssql => "INSERT INTO "@ + table + " OUTPUT inserted.* VALUES ("@ + joined(
            values,
            ","@,
        ) + ")"@,
    }
}

/// Writes the statement that inserts a record with the given column values.
pub fn insert_statement(
    dialect: Dialect,
    table: &str,
    columns: &Vec<String>,
    values: &Vec<String>,
) -> (r: String)
    ensures
        r@ == insert_statement_text(dialect, table@, views(columns@), views(values@)),
{
    let mut r = String::from_str("INSERT INTO ");
    r.append(table);
    match dialect {
        Dialect::Sqlite => {
            r.append(" (");
            let cols = join(columns, ", ");
            r.append(cols.as_str());
            r.append(") VALUES (");
            let vals = join(values, ",");
            r.append(vals.as_str());
            r.append(") RETURNING *");
        },
        Dialect::Mssql => {
            r.append(" OUTPUT inserted.* VALUES (");
            let vals = join(values, ",");
            r.append(vals.as_str());
            r.append(")");
        },
    }
    r
}

/// The statement that updates a record by its identifier and gives it back.
pub open spec fn update_statement_text(
    dialect: Dialect,
    table: Seq<char>,
    assignments: Seq<Seq<char>>,
    id_column: Seq<char>,
    id_value: Seq<char>,
) -> Seq<char> {
    match dialect {
        Dialect::Sqlite => "UPDATE "@ + table + " SET "@ + joined(assignments, ", "@) + " WHERE "@
            + id_column + " = "@ + id_value + " RETURNING *"@,
        Dialect::Mssql => "UPDATE "@ + table + " SET "@ + joined(assignments, ", "@)
            + " OUTPUT inserted.* WHERE "@ + id_column + "="@ + id_value,
    }
}

/// Writes the statement that updates a record by its identifier.
pub fn update_statement(
    dialect: Dialect,
    table: &str,
    assignments: &Vec<String>,
    id_column: &str,
    id_value: &str,
) -> (r: String)
    ensures
        r@ == update_statement_text(dialect, table@, views(assignments@), id_column@, id_value@),
{
    let mut r = String::from_str("UPDATE ");
    r.append(table);
    r.append(" SET ");
    let sets = join(assignments, ", ");
    r.append(sets.as_str());
    match dialect {
        Dialect::Sqlite => {
            r.append(" WHERE ");
            r.append(id_column);
            r.append(" = ");
            r.append(id_value);
            r.append(" RETURNING *");
        },
        Dialect::Mssql => {
            r.append(" OUTPUT inserted.* WHERE ");
            r.append(id_column);
            r.append("=");
            r.append(id_value);
        },
    }
    r
}

/// One `column=value` assignment of an update statement.
pub open spec fn assignment_text(column: Seq<char>, value: Seq<char>) -> Seq<char> {
    column + "="@ + value
}

/// Writes one `column=value` assignment.
pub fn assignment(column: &str, value: &str) -> (r: String)
    ensures
        r@ == assignment_text(column@, value@),
{
    let mut r = String::from_str(column);
    r.append("=");
    r.append(value);
    r
}

/// The statement that reads one record by its identifier.
pub open spec fn select_one_text(table: Seq<char>, id_column: Seq<char>, id: Seq<char>) -> Seq<
    char,
> {
    "SELECT * FROM "@ + table + " WHERE "@ + id_column + " = "@ + id
}

/// Writes the statement that reads one record by its identifier.
pub fn select_one_statement(table: &str, id_column: &str, id: &str) -> (r: String)
    ensures
        r@ == select_one_text(table@, id_column@, id@),
{
    let mut r = String::from_str("SELECT * FROM ");
    r.append(table);
    r.append(" WHERE ");
    r.append(id_column);
    r.append(" = ");
    r.append(id);
    r
}

/// The statement that reads every record of a table.
pub open spec fn select_all_text(table: Seq<char>) -> Seq<char> {
    "SELECT * FROM "@ + table
}

/// Writes the statement that reads every record of a table.
pub fn select_all_statement(table: &str) -> (r: String)
    ensures
        r@ == select_all_text(table@),
{
    let mut r = String::from_str("SELECT * FROM ");
    r.append(table);
    r
}

/// A record whose columns can be written as SQL values.
pub trait Insertable<F> {
    /// The SQL text of one column's value.
    fn sql_types_string(&self, field: F) -> String;

    /// The SQL text of the record's identifier.
    fn sql_type_id(&self) -> String;
}

/// A record that knows the statements that store it.
pub trait Queryable {
    /// The statement that inserts the record and gives it back.
    fn get_insert_string(&self) -> Result<String, String>;

    /// The statement that writes the record over the one with its identifier.
    fn get_update_string(&self) -> Result<String, String>;

    /// The names of the record's columns, its identifier left out.
    fn get_fields(&self) -> Vec<String>;
}

} // verus!

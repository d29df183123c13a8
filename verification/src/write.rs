//! Insert statements, and what a write reports back.

use vstd::prelude::*;
use vstd::string::StringExecFns;
use crate::jsondoc::{is_readable, parse_members, parsed_members, readable};
use crate::text::{firsts, join, joined, pairs, quoted, seconds, views};

verus! {

/// What the database reports after a write.
#[derive(Debug, PartialEq, Eq, Structural)]
pub struct SqlWriteReturn {
    last_save_id: u64,
    affected_rows: u64,
    warning_count: u16,
}

impl SqlWriteReturn {
    /// The report with the given three values.
    pub fn new(last_save_id: u64, affected_rows: u64, warning_count: u16) -> (r: SqlWriteReturn)
        ensures
            r.spec_last_save_id() == last_save_id,
            r.spec_affected_rows() == affected_rows,
            r.spec_warning_count() == warning_count,
    {
        SqlWriteReturn { last_save_id, affected_rows, warning_count }
    }

    pub closed spec fn spec_last_save_id(&self) -> u64 {
        self.last_save_id
    }

    pub closed spec fn spec_affected_rows(&self) -> u64 {
        self.affected_rows
    }

    pub closed spec fn spec_warning_count(&self) -> u16 {
        self.warning_count
    }

    /// The id that the database gave to the row saved last.
    #[verifier::when_used_as_spec(spec_last_save_id)]
    pub fn last_save_id(&self) -> (id: u64)
        ensures
            id == self.spec_last_save_id(),
    {
        self.last_save_id
    }

    /// The number of rows that the statement changed.
    #[verifier::when_used_as_spec(spec_affected_rows)]
    pub fn affected_rows(&self) -> (n: u64)
        ensures
            n == self.spec_affected_rows(),
    {
        self.affected_rows
    }

    /// The number of warnings that the statement raised.
    #[verifier::when_used_as_spec(spec_warning_count)]
    pub fn warning_count(&self) -> (n: u16)
        ensures
            n == self.spec_warning_count(),
    {
        self.warning_count
    }
}

impl Default for SqlWriteReturn {
    /// The report of a write that did nothing: all three values are zero.
    fn default() -> (r: SqlWriteReturn)
        ensures
            r.last_save_id() == 0,
            r.affected_rows() == 0,
            r.warning_count() == 0,
    {
        SqlWriteReturn { last_save_id: 0, affected_rows: 0, warning_count: 0 }
    }
}

/// The list of `items` as `simple_vec_insert` writes it: nothing for no
/// items, else the items with `, ` between them, after `( ` and before two
/// spaces and `)`.
pub open spec fn spaced_list(items: Seq<Seq<char>>) -> Seq<char> {
    if items.len() == 0 {
        Seq::empty()
    } else {
        "( "@ + joined(items, ", "@) + "  )"@
    }
}

/// The statement that inserts one row into `table`: the first halves of
/// `params` are the columns, the second halves their values, each value
/// between apostrophes. Nothing is escaped.
pub open spec fn vec_insert_statement(table: Seq<char>, params: Seq<(Seq<char>, Seq<char>)>) -> Seq<
    char,
> {
    "INSERT INTO `"@ + table + "` "@ + spaced_list(firsts(params)) + " VALUES "@ + spaced_list(
        quoted(seconds(params)),
    )
}

/// The statement that inserts one row into `table` from the members of a
/// JSON object: the names are the columns, the texts their values, each
/// between apostrophes. Nothing is escaped, and `VALUES` follows two spaces.
pub open spec fn json_insert_statement(
    table: Seq<char>,
    members: Seq<(Seq<char>, Seq<char>)>,
) -> Seq<char> {
    "INSERT INTO `"@ + table + "` ("@ + joined(firsts(members), ", "@) + ")  VALUES ("@ + joined(
        quoted(seconds(members)),
        ", "@,
    ) + ")"@
}

/// The first halves of the pairs, and the second halves between apostrophes.
fn columns_and_values(params: &Vec<(String, String)>) -> (r: (Vec<String>, Vec<String>))
    ensures
        views(r.0@) == firsts(pairs(params@)),
        views(r.1@) == quoted(seconds(pairs(params@))),
{
    let mut columns: Vec<String> = Vec::new();
    let mut values: Vec<String> = Vec::new();
    let mut i: usize = 0;
    while i < params.len()
        invariant
            i <= params.len(),
            views(columns@) == firsts(pairs(params@)).take(i as int),
            views(values@) == quoted(seconds(pairs(params@))).take(i as int),
        decreases params.len() - i,
    {
        let ghost columns_before = views(columns@);
        let ghost values_before = views(values@);
        let column: String = params[i].0.clone();
        let mut value = String::new();
        value.push('\'');
        value.append(params[i].1.as_str());
        value.push('\'');
        assert(value@ == seq!['\''] + params@[i as int].1@ + seq!['\'']);
        columns.push(column);
        values.push(value);
        assert(views(columns@) == columns_before.push(params@[i as int].0@));
        assert(views(values@) == values_before.push(
            seq!['\''] + params@[i as int].1@ + seq!['\''],
        ));
        i = i + 1;
    }
    (columns, values)
}

/// Writes the statement that inserts `params` into `table` as one row.
pub fn simple_vec_insert(table: String, params: Vec<(String, String)>) -> (sql: String)
    ensures
        sql@ == vec_insert_statement(table@, pairs(params@)),
{
    let (columns, values) = columns_and_values(&params);
    let mut sql = String::new();
    sql.append("INSERT INTO `");
    sql.append(table.as_str());
    sql.append("` ");
    if columns.len() > 0 {
        sql.append("( ");
        sql.append(join(&columns, ", ").as_str());
        sql.append("  )");
    }
    sql.append(" VALUES ");
    if values.len() > 0 {
        sql.append("( ");
        sql.append(join(&values, ", ").as_str());
        sql.append("  )");
    }
    sql
}

/// Writes the statement that inserts the members of `members` into `table`.
pub fn insert_from_members(table: &str, members: &Vec<(String, String)>) -> (sql: String)
    ensures
        sql@ == json_insert_statement(table@, pairs(members@)),
{
    let (columns, values) = columns_and_values(members);
    let mut sql = String::new();
    sql.append("INSERT INTO `");
    sql.append(table);
    sql.append("` (");
    sql.append(join(&columns, ", ").as_str());
    sql.append(")  VALUES (");
    sql.append(join(&values, ", ").as_str());
    sql.append(")");
    sql
}

/// `json` is a JSON document that can be read.
pub open spec fn is_json(json: Seq<char>) -> bool {
    readable(json) && parsed_members(json).is_some()
}

/// Writes the statement that inserts the members of the JSON object `json`
/// into `table`. A document that is not an object has no members.
///
/// `json` must be a JSON document; `try_simple_json_insert` finds out
/// whether it is.
pub fn simple_json_insert(table: String, json: String) -> (sql: String)
    requires
        is_json(json@),
    ensures
        sql@ == json_insert_statement(table@, parsed_members(json@).unwrap()),
{
    let members = parse_members(json.as_str()).unwrap();
    insert_from_members(table.as_str(), &members)
}

/// Writes the statement that inserts the members of the JSON object `json`
/// into `table`, or nothing where `json` is not a JSON document that can be
/// read.
pub fn try_simple_json_insert(table: String, json: String) -> (sql: Option<String>)
    ensures
        sql.is_some() <==> is_json(json@),
        sql matches Some(text) ==> text@ == json_insert_statement(
            table@,
            parsed_members(json@).unwrap(),
        ),
{
    if !is_readable(json.as_str()) {
        return None;
    }
    if parse_members(json.as_str()).is_none() {
        return None;
    }
    Some(simple_json_insert(table, json))
}

} // verus!

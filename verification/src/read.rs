//! Select statements, and the rows of an answer as JSON.

use vstd::prelude::*;
use vstd::string::StringExecFns;
use crate::jsondoc::{dump_rows, rows_dump, tables};
use crate::text::{pairs, strip_char, views, without};

verus! {

/// The test that column `key` holds `value`: the column between backticks,
/// the value between apostrophes. Nothing is escaped.
pub open spec fn condition(key: Seq<char>, value: Seq<char>) -> Seq<char> {
    "`"@ + key + "`='"@ + value + "'"@
}

/// The statement that selects the rows of `table` whose column `key` holds `value`.
pub open spec fn get_statement(table: Seq<char>, key: Seq<char>, value: Seq<char>) -> Seq<char> {
    "SELECT * FROM `"@ + table + "` WHERE "@ + condition(key, value)
}

/// The statement that selects the rows of `table` that pass both tests.
pub open spec fn get_statement_2(
    table: Seq<char>,
    one: (Seq<char>, Seq<char>),
    two: (Seq<char>, Seq<char>),
) -> Seq<char> {
    get_statement(table, one.0, one.1) + " AND "@ + condition(two.0, two.1)
}

/// Appends the test that column `key` holds `value`.
fn append_condition(sql: &mut String, key: &str, value: &str)
    ensures
        final(sql)@ == old(sql)@ + condition(key@, value@),
{
    sql.append("`");
    sql.append(key);
    sql.append("`='");
    sql.append(value);
    sql.append("'");
}

/// Writes the statement that selects the rows of `table` whose column
/// `search_key` holds `search_value`.
pub fn make_get_statement(search_key: &str, search_value: &str, table: &str) -> (sql: String)
    ensures
        sql@ == get_statement(table@, search_key@, search_value@),
{
    let mut sql = String::new();
    sql.append("SELECT * FROM `");
    sql.append(table);
    sql.append("` WHERE ");
    append_condition(&mut sql, search_key, search_value);
    sql
}

/// Writes the statement that selects the rows of `table` that pass both
/// tests, each given as a column and the value it must hold.
pub fn make_get_statement_2(
    search_cond_one: (&str, &str),
    search_cond_two: (&str, &str),
    table: &str,
) -> (sql: String)
    ensures
        sql@ == get_statement_2(
            table@,
            (search_cond_one.0@, search_cond_one.1@),
            (search_cond_two.0@, search_cond_two.1@),
        ),
{
    let mut sql = make_get_statement(search_cond_one.0, search_cond_one.1, table);
    sql.append(" AND ");
    append_condition(&mut sql, search_cond_two.0, search_cond_two.1);
    sql
}

/// Column `i` comes before column `j` in the answer: its index is smaller,
/// or the indexes are equal and it was listed first.
pub open spec fn precedes(indexes: Seq<usize>, i: int, j: int) -> bool {
    indexes[i] < indexes[j] || (indexes[i] == indexes[j] && i < j)
}

/// The number of columns among the first `upto` that come before column `j`.
pub open spec fn preceding(indexes: Seq<usize>, j: int, upto: nat) -> nat
    decreases upto,
{
    if upto == 0 {
        0
    } else {
        preceding(indexes, j, (upto - 1) as nat) + if precedes(indexes, upto - 1, j) {
            1nat
        } else {
            0nat
        }
    }
}

/// The place of column `j` when the columns are put in the order of their
/// indexes, columns of equal index staying as they were listed: the number
/// of columns that come before it.
pub open spec fn place(indexes: Seq<usize>, j: int) -> nat {
    preceding(indexes, j, indexes.len())
}

/// The indexes of the columns, in the order in which the columns are listed.
pub open spec fn indexes_of(columns: Seq<(String, usize)>) -> Seq<usize> {
    Seq::new(columns.len(), |i: int| columns[i].1)
}

/// No count of preceding columns exceeds the number of columns looked at,
/// nor reaches it once the column itself is among them.
proof fn lemma_preceding_bound(indexes: Seq<usize>, j: int, upto: nat)
    requires
        0 <= j < indexes.len(),
        upto <= indexes.len(),
    ensures
        preceding(indexes, j, upto) <= upto,
        j < upto ==> preceding(indexes, j, upto) < upto,
    decreases upto,
{
    if upto > 0 {
        lemma_preceding_bound(indexes, j, (upto - 1) as nat);
    }
}

/// A column that comes before another has fewer columns before it.
proof fn lemma_preceding_grows(indexes: Seq<usize>, i: int, j: int, upto: nat)
    requires
        0 <= i < indexes.len(),
        0 <= j < indexes.len(),
        upto <= indexes.len(),
        precedes(indexes, i, j),
    ensures
        preceding(indexes, i, upto) <= preceding(indexes, j, upto),
        i < upto ==> preceding(indexes, i, upto) < preceding(indexes, j, upto),
    decreases upto,
{
    if upto > 0 {
        lemma_preceding_grows(indexes, i, j, (upto - 1) as nat);
    }
}

/// The places are the order of the indexes: every column has a place of its
/// own among the columns, a column of smaller index has a smaller place, and
/// of two columns of equal index the one listed first has the smaller place.
pub proof fn lemma_places_are_the_order(indexes: Seq<usize>, i: int, j: int)
    requires
        0 <= i < indexes.len(),
        0 <= j < indexes.len(),
    ensures
        place(indexes, i) < indexes.len(),
        precedes(indexes, i, j) ==> place(indexes, i) < place(indexes, j),
        i != j ==> place(indexes, i) != place(indexes, j),
{
    lemma_preceding_bound(indexes, i, indexes.len());
    if precedes(indexes, i, j) {
        lemma_preceding_grows(indexes, i, j, indexes.len());
    } else if i != j {
        lemma_preceding_grows(indexes, j, i, indexes.len());
    }
}

/// The indexes number the columns: each is below the number of columns, and
/// no two columns share one.
pub open spec fn numbered(indexes: Seq<usize>) -> bool {
    &&& forall|i: int| 0 <= i < indexes.len() ==> #[trigger] indexes[i] < indexes.len()
    &&& forall|i: int, j: int|
        0 <= i < j < indexes.len() ==> #[trigger] indexes[i] != #[trigger] indexes[j]
}

/// The number of columns among the first `upto` whose index is below `k`.
pub open spec fn below(indexes: Seq<usize>, k: int, upto: nat) -> nat
    decreases upto,
{
    if upto == 0 {
        0
    } else {
        below(indexes, k, (upto - 1) as nat) + if indexes[upto - 1] < k {
            1nat
        } else {
            0nat
        }
    }
}

/// The number of columns among the first `upto` whose index is `k`.
pub open spec fn hits(indexes: Seq<usize>, k: int, upto: nat) -> nat
    decreases upto,
{
    if upto == 0 {
        0
    } else {
        hits(indexes, k, (upto - 1) as nat) + if indexes[upto - 1] == k {
            1nat
        } else {
            0nat
        }
    }
}

/// Counting the columns below `k + 1` is counting those below `k` and those at `k`.
proof fn lemma_below_step(indexes: Seq<usize>, k: int, upto: nat)
    requires
        upto <= indexes.len(),
    ensures
        below(indexes, k + 1, upto) == below(indexes, k, upto) + hits(indexes, k, upto),
        below(indexes, 0, upto) == 0,
        (forall|i: int| 0 <= i < upto ==> #[trigger] indexes[i] < k) ==> below(indexes, k, upto)
            == upto,
        (forall|i: int| 0 <= i < upto ==> #[trigger] indexes[i] != k) ==> hits(indexes, k, upto)
            == 0,
    decreases upto,
{
    if upto > 0 {
        lemma_below_step(indexes, k, (upto - 1) as nat);
    }
}

/// Where no two columns share an index, at most one column has index `k`.
proof fn lemma_hits_once(indexes: Seq<usize>, k: int, upto: nat)
    requires
        numbered(indexes),
        upto <= indexes.len(),
    ensures
        hits(indexes, k, upto) <= 1,
    decreases upto,
{
    if upto > 0 {
        lemma_hits_once(indexes, k, (upto - 1) as nat);
        if indexes[upto - 1] == k {
            assert(forall|i: int| 0 <= i < upto - 1 ==> #[trigger] indexes[i] != k);
            lemma_below_step(indexes, k, (upto - 1) as nat);
        }
    }
}

/// Where the indexes number the columns, exactly `k` columns lie below `k`.
proof fn lemma_below_counts(indexes: Seq<usize>, k: int)
    requires
        numbered(indexes),
        0 <= k <= indexes.len(),
    ensures
        below(indexes, k, indexes.len()) == k,
{
    lemma_below_at_most(indexes, k);
    lemma_below_at_least(indexes, k);
}

proof fn lemma_below_at_most(indexes: Seq<usize>, k: int)
    requires
        numbered(indexes),
        0 <= k <= indexes.len(),
    ensures
        below(indexes, k, indexes.len()) <= k,
    decreases k,
{
    lemma_below_step(indexes, k - 1, indexes.len());
    if k > 0 {
        lemma_below_at_most(indexes, k - 1);
        lemma_hits_once(indexes, k - 1, indexes.len());
    }
}

proof fn lemma_below_at_least(indexes: Seq<usize>, k: int)
    requires
        numbered(indexes),
        0 <= k <= indexes.len(),
    ensures
        below(indexes, k, indexes.len()) >= k,
    decreases indexes.len() - k,
{
    lemma_below_step(indexes, k, indexes.len());
    if k < indexes.len() {
        lemma_below_at_least(indexes, k + 1);
        lemma_hits_once(indexes, k, indexes.len());
    }
}

/// Where no two columns share an index, the columns before column `j` are
/// those of smaller index.
proof fn lemma_preceding_is_below(indexes: Seq<usize>, j: int, upto: nat)
    requires
        numbered(indexes),
        0 <= j < indexes.len(),
        upto <= indexes.len(),
    ensures
        preceding(indexes, j, upto) == below(indexes, indexes[j] as int, upto),
    decreases upto,
{
    if upto > 0 {
        lemma_preceding_is_below(indexes, j, (upto - 1) as nat);
    }
}

/// Where the indexes number the columns, from 0 on and each once, the place
/// of a column is its index: `get_col_names` puts the name of the column
/// with index `k` at position `k`.
pub proof fn lemma_place_is_the_index(indexes: Seq<usize>, j: int)
    requires
        numbered(indexes),
        0 <= j < indexes.len(),
    ensures
        place(indexes, j) == indexes[j],
{
    lemma_preceding_is_below(indexes, j, indexes.len());
    lemma_below_counts(indexes, indexes[j] as int);
}

/// The number of columns that come before column `j`.
fn place_of(columns: &Vec<(String, usize)>, j: usize) -> (p: usize)
    requires
        j < columns.len(),
    ensures
        p == place(indexes_of(columns@), j as int),
        p < columns.len(),
{
    let ghost indexes = indexes_of(columns@);
    let mut p: usize = 0;
    let mut i: usize = 0;
    while i < columns.len()
        invariant
            i <= columns.len(),
            j < columns.len(),
            indexes == indexes_of(columns@),
            p == preceding(indexes, j as int, i as nat),
            p <= i,
        decreases columns.len() - i,
    {
        if columns[i].1 < columns[j].1 || (columns[i].1 == columns[j].1 && i < j) {
            p = p + 1;
        }
        i = i + 1;
    }
    proof {
        lemma_preceding_bound(indexes, j as int, indexes.len());
    }
    p
}

/// The names of the columns in the order of their indexes.
///
/// `columns` lists each column of an answer as its name and its index, in
/// any order. The name of column `j` stands at `place(.., j)` of the result:
/// names go by ascending index, and where two columns have the same index
/// they stay in the order in which they were listed. Where the indexes
/// number the columns from 0 on, each name stands at its index.
pub fn get_col_names(columns: &Vec<(String, usize)>) -> (names: Vec<String>)
    ensures
        names.len() == columns.len(),
        forall|j: int|
            0 <= j < columns.len() ==> (#[trigger] names[place(indexes_of(columns@), j) as int])@
                == columns[j].0@,
        numbered(indexes_of(columns@)) ==> forall|j: int|
            0 <= j < columns.len() ==> names[(#[trigger] columns[j]).1 as int]@ == columns[j].0@,
{
    let ghost indexes = indexes_of(columns@);
    proof {
        if numbered(indexes) {
            assert forall|j: int| 0 <= j < columns.len() implies place(indexes, j)
                == (#[trigger] columns[j]).1 by {
                lemma_place_is_the_index(indexes, j);
            }
        }
    }
    let mut names: Vec<String> = Vec::new();
    let mut i: usize = 0;
    while i < columns.len()
        invariant
            i <= columns.len(),
            names.len() == i,
        decreases columns.len() - i,
    {
        names.push(String::new());
        i = i + 1;
    }
    let mut j: usize = 0;
    while j < columns.len()
        invariant
            j <= columns.len(),
            names.len() == columns.len(),
            indexes == indexes_of(columns@),
            forall|k: int| 0 <= k < j ==> (#[trigger] names[place(indexes, k) as int])@ == columns[k].0@,
        decreases columns.len() - j,
    {
        let p: usize = place_of(columns, j);
        let name: String = columns[j].0.clone();
        names.set(p, name);
        assert forall|k: int| 0 <= k < j + 1 implies (#[trigger] names[place(indexes, k) as int])@
            == columns[k].0@ by {
            lemma_places_are_the_order(indexes, k, j as int);
        }
        j = j + 1;
    }
    names
}

/// The texts of one row under the names of their columns, every apostrophe
/// taken out of the texts.
pub open spec fn named(names: Seq<Seq<char>>, row: Seq<Seq<char>>) -> Seq<(Seq<char>, Seq<char>)> {
    Seq::new(row.len(), |i: int| (names[i], without(row[i], '\'')))
}

/// The views of the rows, in order.
pub open spec fn row_views(rows: Seq<Vec<String>>) -> Seq<Seq<Seq<char>>> {
    Seq::new(rows.len(), |i: int| views(rows[i]@))
}

/// Every row under the names of its columns.
pub open spec fn all_named(names: Seq<Seq<char>>, rows: Seq<Seq<Seq<char>>>) -> Seq<
    Seq<(Seq<char>, Seq<char>)>,
> {
    Seq::new(rows.len(), |i: int| named(names, rows[i]))
}

/// No row has more texts than there are names.
pub open spec fn rows_fit(names: Seq<Seq<char>>, rows: Seq<Seq<Seq<char>>>) -> bool {
    forall|i: int| 0 <= i < rows.len() ==> (#[trigger] rows[i]).len() <= names.len()
}

/// Puts the texts of one row under the names of their columns and takes
/// every apostrophe out of the texts.
fn name_row(col_names: &Vec<String>, row: &Vec<String>) -> (r: Vec<(String, String)>)
    requires
        row.len() <= col_names.len(),
    ensures
        pairs(r@) == named(views(col_names@), views(row@)),
{
    let mut r: Vec<(String, String)> = Vec::new();
    let mut i: usize = 0;
    while i < row.len()
        invariant
            i <= row.len(),
            row.len() <= col_names.len(),
            pairs(r@) == named(views(col_names@), views(row@)).take(i as int),
        decreases row.len() - i,
    {
        let ghost before = pairs(r@);
        let name: String = col_names[i].clone();
        let text: String = strip_char(row[i].as_str(), '\'');
        r.push((name, text));
        assert(pairs(r@) == before.push((col_names@[i as int]@, without(row@[i as int]@, '\''))));
        i = i + 1;
    }
    r
}

/// Puts the texts of every row under the names of their columns, with every
/// apostrophe taken out of the texts. A row may have fewer texts than there
/// are names; the result is `None` exactly where some row has more.
pub fn name_rows(col_names: &Vec<String>, rows: &Vec<Vec<String>>) -> (r: Option<
    Vec<Vec<(String, String)>>,
>)
    ensures
        r is Some <==> rows_fit(views(col_names@), row_views(rows@)),
        r matches Some(named_rows) ==> tables(named_rows@) == all_named(
            views(col_names@),
            row_views(rows@),
        ),
{
    let mut named_rows: Vec<Vec<(String, String)>> = Vec::new();
    let mut i: usize = 0;
    while i < rows.len()
        invariant
            i <= rows.len(),
            forall|k: int| 0 <= k < i ==> (#[trigger] row_views(rows@)[k]).len() <= col_names.len(),
            tables(named_rows@) == all_named(views(col_names@), row_views(rows@)).take(i as int),
        decreases rows.len() - i,
    {
        if rows[i].len() > col_names.len() {
            assert(row_views(rows@)[i as int].len() > views(col_names@).len());
            return None;
        }
        let ghost before = tables(named_rows@);
        let row = name_row(col_names, &rows[i]);
        named_rows.push(row);
        assert(tables(named_rows@) == before.push(
            named(views(col_names@), row_views(rows@)[i as int]),
        ));
        i = i + 1;
    }
    Some(named_rows)
}

/// Writes the rows of an answer as a JSON array of objects, one object per
/// row, in which each text stands under the name of its column with every
/// apostrophe taken out. The result is `None` exactly where some row has
/// more texts than there are names.
pub fn rows_to_json(col_names: &Vec<String>, rows: &Vec<Vec<String>>) -> (json: Option<String>)
    ensures
        json is Some <==> rows_fit(views(col_names@), row_views(rows@)),
        json matches Some(text) ==> text@ == rows_dump(
            all_named(views(col_names@), row_views(rows@)),
        ),
{
    match name_rows(col_names, rows) {
        Some(named_rows) => Some(dump_rows(&named_rows)),
        None => None,
    }
}

} // verus!

//! The decisions of a session with a MariaDB / MySQL server: the statements each
//! operation sends, and what it makes of what the server answered. Running a statement
//! is left to the caller, which hands the outcome back.

use vstd::prelude::*;
use crate::cstr::{from_cstr, has_nul, holds_cstr};
use crate::serialize::{SerializeSQL, describes_shape, literals_of};
use crate::text::{int_text, int_to_text, push_text};
use crate::types::{
    SQLFieldType,
    SQLType,
    field_type_of,
    has_paren,
    lemma_parses_to_field_type,
    known_type_name,
    no_suffix_error,
    parses_to,
    type_prefix,
    unknown_name_error,
};

verus! {

/// What the client library answered to a statement that returns rows: each row's
/// cells as NUL-terminated byte sequences, or the diagnostic of a failure.
pub type RowsOutcome = Result<Vec<Vec<Vec<u8>>>, Vec<u8>>;

/// Every row holds at least `wide` cells, and each of the first `wide` is terminated.
pub open spec fn cells_readable(rows: Seq<Vec<Vec<u8>>>, wide: int) -> bool {
    &&& forall|i: int| 0 <= i < rows.len() ==> wide <= (#[trigger] rows[i])@.len()
    &&& forall|i: int, j: int|
        0 <= i < rows.len() && 0 <= j < wide ==> has_nul(#[trigger] rows[i]@[j]@)
}

/// The error of an operation that failed for the given cause.
pub open spec fn op_error(op: Seq<char>, cause: Seq<char>) -> Seq<char> {
    op + " failed: "@ + cause
}

fn wrap_error(op: &str, cause: String) -> (r: String)
    ensures
        r@ == op_error(op@, cause@),
{
    let mut e = op.to_string();
    push_text(&mut e, " failed: ");
    push_text(&mut e, cause.as_str());
    e
}

/// Re-wraps the error of a statement that returns nothing.
fn wrap_unit(op: &str, outcome: Result<(), String>) -> (r: Result<(), String>)
    ensures
        outcome is Ok ==> r is Ok,
        outcome matches Err(c) ==> (r matches Err(e) && e@ == op_error(op@, c@)),
{
    match outcome {
        Ok(()) => Ok(()),
        Err(c) => Err(wrap_error(op, c)),
    }
}

/// The text views of rows of cells.
pub open spec fn rows_view(rows: Seq<Vec<String>>) -> Seq<Seq<Seq<char>>> {
    rows.map_values(|row: Vec<String>| row@.map_values(|s: String| s@))
}

/// The statement that makes `name` the active database.
pub open spec fn use_text(name: Seq<char>) -> Seq<char> {
    "use "@ + name + ";"@
}

/// The statement that lists the tables of the active database.
pub open spec fn show_tables_text() -> Seq<char> {
    "show tables;"@
}

/// The statement that reads every row of a table.
pub open spec fn select_text(name: Seq<char>) -> Seq<char> {
    "select * from "@ + name + ";"@
}

/// The statement that creates a table with the given column definitions.
pub open spec fn create_text(name: Seq<char>, contents: Seq<char>) -> Seq<char> {
    "create table "@ + name + " ("@ + contents + ");"@
}

/// The statement that deletes a table.
pub open spec fn drop_text(name: Seq<char>) -> Seq<char> {
    "drop table "@ + name + ";"@
}

/// The statement that describes a table's columns.
pub open spec fn describe_text(name: Seq<char>) -> Seq<char> {
    "describe "@ + name + ";"@
}

/// Query literals joined with `", "`.
pub open spec fn join_literals(ls: Seq<Seq<char>>) -> Seq<char>
    decreases ls.len(),
{
    if ls.len() == 0 {
        seq![]
    } else if ls.len() == 1 {
        ls[0]
    } else {
        join_literals(ls.drop_last()) + ", "@ + ls.last()
    }
}

/// The statement that inserts a row of the given literals into a table.
pub open spec fn insert_text(name: Seq<char>, ls: Seq<Seq<char>>) -> Seq<char> {
    "insert into "@ + name + " VALUES("@ + join_literals(ls) + ");"@
}

/// The error of a failed statement that returns nothing.
pub open spec fn no_res_error(query: Seq<char>, diagnostic: Seq<char>) -> Seq<char> {
    "Query of ("@ + query + ") failed. Reason: "@ + diagnostic
}

/// The error of a handshake that failed.
pub open spec fn connect_error_text(diagnostic: Seq<char>) -> Seq<char> {
    "Failed to connect to SQL. Reason: "@ + diagnostic
}

/// The error for a row width below one.
pub open spec fn width_error(wide: int) -> Seq<char> {
    "Invalid width for query. Must be larger than zero. Given width was "@ + int_text(wide)
}

/// The error when a record type does not match the table.
pub open spec fn mismatch_error() -> Seq<char> {
    "Struct did not match what is in the table."@
}

/// Whether a reported type name parses.
pub open spec fn type_name_parses(words: Seq<char>) -> bool {
    has_paren(words) && known_type_name(type_prefix(words))
}

/// The error of a reported type name that does not parse.
pub open spec fn type_name_error(words: Seq<char>) -> Seq<char> {
    if !has_paren(words) {
        no_suffix_error(words)
    } else {
        unknown_name_error(type_prefix(words))
    }
}

/// `repr` is the table shape read from described rows: each row's column name, and its
/// reported type name, which parses, as the value it parses to.
pub open spec fn repr_of_rows(rows: Seq<Seq<Seq<char>>>, repr: Seq<(String, SQLType)>) -> bool {
    &&& repr.len() == rows.len()
    &&& forall|i: int|
        0 <= i < rows.len() ==> (#[trigger] repr[i]).0@ == rows[i][0] && type_name_parses(rows[i][1])
            && parses_to(type_prefix(rows[i][1]), repr[i].1)
}

/// A record shape matches a table shape: equal lengths, and equal field-type tags at
/// every position. Column names are not compared, and neither are payloads.
pub open spec fn shapes_match(
    shape: Seq<(Seq<char>, SQLFieldType)>,
    table: Seq<(String, SQLType)>,
) -> bool {
    &&& shape.len() == table.len()
    &&& forall|i: int| 0 <= i < shape.len() ==> (#[trigger] shape[i]).1 == field_type_of(table[i].1)
}

/// Every described row parses: its reported type name is known.
pub open spec fn rows_parse(rows: Seq<Seq<Seq<char>>>) -> bool {
    forall|i: int| 0 <= i < rows.len() ==> type_name_parses(#[trigger] rows[i][1])
}

/// The error for the first described row whose reported type name does not parse.
pub open spec fn repr_error(rows: Seq<Seq<Seq<char>>>) -> Seq<char>
    decreases rows.len(),
{
    if rows.len() == 0 {
        seq![]
    } else if !type_name_parses(rows[0][1]) {
        type_name_error(rows[0][1])
    } else {
        repr_error(rows.drop_first())
    }
}

/// Every row holds at least `n` cells.
pub open spec fn rows_wide(rows: Seq<Vec<String>>, n: int) -> bool {
    forall|i: int| 0 <= i < rows.len() ==> n <= (#[trigger] rows[i])@.len()
}

fn statement(head: &str, name: &str, tail: &str) -> (r: String)
    ensures
        r@ == head@ + name@ + tail@,
{
    let mut q = head.to_string();
    push_text(&mut q, name);
    push_text(&mut q, tail);
    q
}

proof fn lemma_repr_error_step(rows: Seq<Seq<Seq<char>>>, i: int)
    requires
        0 <= i < rows.len(),
        type_name_parses(rows[i][1]),
    ensures
        repr_error(rows.subrange(i, rows.len() as int)) == repr_error(
            rows.subrange(i + 1, rows.len() as int),
        ),
{
    let t = rows.subrange(i, rows.len() as int);
    assert(t[0] == rows[i]);
    assert(t.drop_first() =~= rows.subrange(i + 1, rows.len() as int));
}

proof fn lemma_repr_error_here(rows: Seq<Seq<Seq<char>>>, i: int)
    requires
        0 <= i < rows.len(),
        !type_name_parses(rows[i][1]),
    ensures
        repr_error(rows.subrange(i, rows.len() as int)) == type_name_error(rows[i][1]),
{
    let t = rows.subrange(i, rows.len() as int);
    assert(t[0] == rows[i]);
}

/// Two table shapes read from the same described rows carry the same field-type tags,
/// so a record shape matches both or neither.
pub proof fn lemma_readings_agree(
    shape: Seq<(Seq<char>, SQLFieldType)>,
    rows: Seq<Seq<Seq<char>>>,
    a: Seq<(String, SQLType)>,
    b: Seq<(String, SQLType)>,
)
    requires
        repr_of_rows(rows, a),
        repr_of_rows(rows, b),
    ensures
        shapes_match(shape, a) == shapes_match(shape, b),
{
    assert forall|i: int| 0 <= i < a.len() implies field_type_of(#[trigger] a[i].1) == field_type_of(
        b[i].1,
    ) by {
        assert(a[i].0@ == rows[i][0] && b[i].0@ == rows[i][0]);
        lemma_parses_to_field_type(type_prefix(rows[i][1]), a[i].1, b[i].1);
    }
    if shapes_match(shape, a) {
        assert forall|i: int| 0 <= i < shape.len() implies (#[trigger] shape[i]).1 == field_type_of(
            b[i].1,
        ) by {
            assert(field_type_of(a[i].1) == field_type_of(b[i].1));
        }
    }
    if shapes_match(shape, b) {
        assert forall|i: int| 0 <= i < shape.len() implies (#[trigger] shape[i]).1 == field_type_of(
            a[i].1,
        ) by {
            assert(field_type_of(a[i].1) == field_type_of(b[i].1));
        }
    }
}

/// A session with a server, as far as this library keeps it: the name of the database
/// last switched to. A raw statement that changes the database is not seen here, so
/// the name may then differ from the server's.
pub struct Connection {
    db: String,
}

impl View for Connection {
    type V = Seq<char>;

    closed spec fn view(&self) -> Seq<char> {
        self.db@
    }
}

impl Connection {
    /// The connection once the handshake for `database` succeeded.
    pub fn new(database: &str) -> (r: Connection)
        ensures
            r@ == database@,
    {
        Connection { db: database.to_string() }
    }

    /// The name of the database last switched to.
    pub fn db(&self) -> (r: &String)
        ensures
            r@ == self@,
    {
        &self.db
    }

    /// The error of a failed handshake, from the client library's diagnostic.
    pub fn connect_error(diagnostic: &[u8]) -> (r: String)
        requires
            has_nul(diagnostic@),
        ensures
            exists|d: Seq<char>| holds_cstr(diagnostic@, d) && r@ == connect_error_text(d),
    {
        let d = from_cstr(diagnostic);
        let mut e = "Failed to connect to SQL. Reason: ".to_string();
        push_text(&mut e, d.as_str());
        assert(holds_cstr(diagnostic@, d@) && e@ == connect_error_text(d@));
        e
    }

    /// Checks the width asked of a query that returns rows: at least one column.
    pub fn raw_query_width(wide: isize) -> (r: Result<usize, String>)
        ensures
            wide >= 1 ==> r == Ok::<usize, String>(wide as usize),
            wide < 1 ==> (r matches Err(e) && e@ == width_error(wide as int)),
    {
        if wide < 1 {
            let mut e = "Invalid width for query. Must be larger than zero. Given width was ".to_string();
            let n = int_to_text(wide as i64);
            push_text(&mut e, n.as_str());
            Err(e)
        } else {
            Ok(wide as usize)
        }
    }

    /// Decodes the answer to a query that returns rows: the first `wide` cells of each
    /// row, or the diagnostic of a failure.
    pub fn raw_query(&self, wide: usize, outcome: RowsOutcome) -> (r: Result<Vec<Vec<String>>, String>)
        requires
            wide >= 1,
            outcome matches Err(d) ==> has_nul(d@),
            outcome matches Ok(rows) ==> cells_readable(rows@, wide as int),
        ensures
            outcome is Ok <==> r is Ok,
            outcome matches Err(d) ==> (r matches Err(e) && holds_cstr(d@, e@)),
            outcome matches Ok(rows) ==> (r matches Ok(v) && v@.len() == rows@.len() && forall|
                i: int,
            |
                0 <= i < v@.len() ==> (#[trigger] v@[i])@.len() == wide && forall|j: int|
                    0 <= j < wide ==> holds_cstr(rows@[i]@[j]@, (#[trigger] v@[i]@[j])@)),
    {
        match outcome {
            Err(d) => Err(from_cstr(d.as_slice())),
            Ok(rows) => {
                let mut v: Vec<Vec<String>> = Vec::new();
                let mut i: usize = 0;
                while i < rows.len()
                    invariant
                        i <= rows@.len(),
                        v@.len() == i,
                        cells_readable(rows@, wide as int),
                        forall|a: int|
                            0 <= a < i ==> (#[trigger] v@[a])@.len() == wide && forall|j: int|
                                0 <= j < wide ==> holds_cstr(rows@[a]@[j]@, (#[trigger] v@[a]@[j])@),
                    decreases rows@.len() - i,
                {
                    let mut inner: Vec<String> = Vec::new();
                    let mut j: usize = 0;
                    while j < wide
                        invariant
                            i < rows@.len(),
                            j <= wide,
                            inner@.len() == j,
                            cells_readable(rows@, wide as int),
                            forall|k: int|
                                0 <= k < j ==> holds_cstr(rows@[i as int]@[k]@, (#[trigger] inner@[k])@),
                        decreases wide - j,
                    {
                        assert(j < rows@[i as int]@.len());
                        assert(has_nul(rows@[i as int]@[j as int]@));
                        let cell = from_cstr(rows[i][j].as_slice());
                        inner.push(cell);
                        j = j + 1;
                    }
                    v.push(inner);
                    i = i + 1;
                }
                Ok(v)
            },
        }
    }

    /// Decodes the answer to a statement that returns nothing.
    pub fn raw_query_no_res(&self, query: &str, outcome: Result<(), Vec<u8>>) -> (r: Result<(), String>)
        requires
            outcome matches Err(d) ==> has_nul(d@),
        ensures
            outcome is Ok <==> r is Ok,
            outcome matches Err(d) ==> (r matches Err(e) && exists|t: Seq<char>|
                holds_cstr(d@, t) && e@ == no_res_error(query@, t)),
    {
        match outcome {
            Ok(()) => Ok(()),
            Err(d) => {
                let error = from_cstr(d.as_slice());
                let mut e = "Query of (".to_string();
                push_text(&mut e, query);
                push_text(&mut e, ") failed. Reason: ");
                push_text(&mut e, error.as_str());
                assert(holds_cstr(d@, error@) && e@ == no_res_error(query@, error@));
                Err(e)
            },
        }
    }

    /// The statement that makes `new_db` the active database.
    pub fn switch_db_query(new_db: &str) -> (r: String)
        ensures
            r@ == use_text(new_db@),
    {
        statement("use ", new_db, ";")
    }

    /// Records the outcome of switching to `new_db`: on success it becomes the database
    /// this connection names.
    pub fn switch_db(&mut self, new_db: String, outcome: Result<(), String>) -> (r: Result<(), String>)
        ensures
            outcome is Ok ==> r is Ok && final(self)@ == new_db@,
            outcome matches Err(c) ==> (r matches Err(e) && e@ == op_error("switch_db"@, c@)
                && final(self)@ == old(self)@),
    {
        match outcome {
            Ok(()) => {
                self.db = new_db;
                Ok(())
            },
            Err(c) => Err(wrap_error("switch_db", c)),
        }
    }

    /// The statement that lists the tables, read one column wide.
    pub fn get_tables_list_query() -> (r: String)
        ensures
            r@ == show_tables_text(),
    {
        "show tables;".to_string()
    }

    /// The table names out of the rows that listing the tables returned.
    pub fn get_tables_list(&self, rows: Result<Vec<Vec<String>>, String>) -> (r: Result<Vec<String>, String>)
        requires
            rows matches Ok(v) ==> rows_wide(v@, 1),
        ensures
            rows is Ok <==> r is Ok,
            rows matches Err(c) ==> (r matches Err(e) && e@ == op_error("get_tables_list"@, c@)),
            rows matches Ok(v) ==> (r matches Ok(names) && names@.len() == v@.len() && forall|i: int|
                0 <= i < v@.len() ==> (#[trigger] names@[i])@ == v@[i]@[0]@),
    {
        match rows {
            Err(c) => Err(wrap_error("get_tables_list", c)),
            Ok(v) => {
                let mut names: Vec<String> = Vec::new();
                let mut i: usize = 0;
                while i < v.len()
                    invariant
                        i <= v@.len(),
                        rows_wide(v@, 1),
                        names@.len() == i,
                        forall|k: int| 0 <= k < i ==> (#[trigger] names@[k])@ == v@[k]@[0]@,
                    decreases v@.len() - i,
                {
                    assert(1 <= v@[i as int]@.len());
                    names.push(v[i][0].clone());
                    i = i + 1;
                }
                Ok(names)
            },
        }
    }

    /// The statement that reads every row of table `name`.
    pub fn read_table_strings_query(name: &str) -> (r: String)
        ensures
            r@ == select_text(name@),
    {
        statement("select * from ", name, ";")
    }

    /// The rows that reading a table returned, with its error named.
    pub fn read_table_strings(&self, rows: Result<Vec<Vec<String>>, String>) -> (r: Result<Vec<Vec<String>>, String>)
        ensures
            rows is Ok ==> r == rows,
            rows matches Err(c) ==> (r matches Err(e) && e@ == op_error("read_table_strings"@, c@)),
    {
        match rows {
            Ok(v) => Ok(v),
            Err(c) => Err(wrap_error("read_table_strings", c)),
        }
    }

    /// The statement that creates table `table_name` with the given column definitions.
    pub fn create_table_query(table_name: &str, table_contents: &str) -> (r: String)
        ensures
            r@ == create_text(table_name@, table_contents@),
    {
        let mut q = statement("create table ", table_name, " (");
        push_text(&mut q, table_contents);
        push_text(&mut q, ");");
        q
    }

    /// The outcome of creating a table, with its error named.
    pub fn create_table(&self, outcome: Result<(), String>) -> (r: Result<(), String>)
        ensures
            outcome is Ok ==> r is Ok,
            outcome matches Err(c) ==> (r matches Err(e) && e@ == op_error("create_table"@, c@)),
    {
        wrap_unit("create_table", outcome)
    }

    /// The statement that deletes table `table_name`.
    pub fn drop_table_query(table_name: &str) -> (r: String)
        ensures
            r@ == drop_text(table_name@),
    {
        statement("drop table ", table_name, ";")
    }

    /// The outcome of deleting a table, with its error named.
    pub fn drop_table(&self, outcome: Result<(), String>) -> (r: Result<(), String>)
        ensures
            outcome is Ok ==> r is Ok,
            outcome matches Err(c) ==> (r matches Err(e) && e@ == op_error("drop_table"@, c@)),
    {
        wrap_unit("drop_table", outcome)
    }

    /// The statement that describes table `table_name`, read two columns wide (name
    /// and reported type).
    pub fn get_table_repr_query(table_name: &str) -> (r: String)
        ensures
            r@ == describe_text(table_name@),
    {
        statement("describe ", table_name, ";")
    }

    /// The table shape out of the described rows: each row's name, and its reported
    /// type parsed. One type name that does not parse fails the whole, naming it.
    pub fn get_table_repr(rows: Result<Vec<Vec<String>>, String>) -> (r: Result<Vec<(String, SQLType)>, String>)
        requires
            rows matches Ok(v) ==> rows_wide(v@, 2),
        ensures
            rows matches Err(c) ==> (r matches Err(e) && e@ == c@),
            rows matches Ok(v) ==> (r is Ok <==> rows_parse(rows_view(v@))),
            rows matches Ok(v) ==> (r matches Ok(repr) ==> repr_of_rows(rows_view(v@), repr@)),
            rows matches Ok(v) ==> (r matches Err(e) ==> e@ == repr_error(rows_view(v@))),
    {
        match rows {
            Err(c) => Err(c),
            Ok(v) => {
                let ghost rv = rows_view(v@);
                let mut repr: Vec<(String, SQLType)> = Vec::new();
                let mut i: usize = 0;
                assert(rv.subrange(0, rv.len() as int) =~= rv);
                while i < v.len()
                    invariant
                        i <= v@.len(),
                        rows == Ok::<Vec<Vec<String>>, String>(v),
                        rv == rows_view(v@),
                        rows_wide(v@, 2),
                        repr@.len() == i,
                        forall|k: int| 0 <= k < i ==> type_name_parses(#[trigger] rv[k][1]),
                        forall|k: int|
                            0 <= k < i ==> (#[trigger] repr@[k]).0@ == rv[k][0] && parses_to(
                                type_prefix(rv[k][1]),
                                repr@[k].1,
                            ),
                        repr_error(rv) == repr_error(rv.subrange(i as int, rv.len() as int)),
                    decreases v@.len() - i,
                {
                    assert(2 <= v@[i as int]@.len());
                    assert(rv[i as int][1] == v@[i as int]@[1]@);
                    assert(rv[i as int][0] == v@[i as int]@[0]@);
                    match SQLType::from_str(v[i][1].as_str()) {
                        Ok(t) => {
                            proof {
                                lemma_repr_error_step(rv, i as int);
                            }
                            repr.push((v[i][0].clone(), t));
                        },
                        Err(e) => {
                            proof {
                                lemma_repr_error_here(rv, i as int);
                            }
                            return Err(e);
                        },
                    }
                    i = i + 1;
                }
                Ok(repr)
            },
        }
    }

    /// Whether record type `T` matches the table shape: equal lengths and equal
    /// field-type tags at every position. Placeholder payloads and column names are not
    /// compared.
    pub fn check_struct<T: SerializeSQL>(&self, table_repr: &Vec<(String, SQLType)>) -> (r: bool)
        ensures
            r == shapes_match(T::sql_shape(), table_repr@),
    {
        let repr = T::new_sql_repr();
        if repr.len() != table_repr.len() {
            return false;
        }
        let mut i: usize = 0;
        while i < repr.len()
            invariant
                i <= repr@.len(),
                repr@.len() == table_repr@.len(),
                describes_shape(repr@, T::sql_shape()),
                forall|k: int|
                    0 <= k < i ==> (#[trigger] T::sql_shape()[k]).1 == field_type_of(table_repr@[k].1),
            decreases repr@.len() - i,
        {
            assert(field_type_of(repr@[i as int].1) == T::sql_shape()[i as int].1);
            if repr[i].1.get_field_type() != table_repr[i].1.get_field_type() {
                return false;
            }
            i = i + 1;
        }
        true
    }

    /// The statement that inserts `obj` into `table_name`, once the table's described
    /// rows show that the record type matches it. Refused, with no statement, when the
    /// description failed or does not match.
    pub fn insert_struct<T: SerializeSQL>(
        &self,
        table_name: &str,
        obj: &T,
        described: Result<Vec<Vec<String>>, String>,
    ) -> (r: Result<String, String>)
        requires
            described matches Ok(v) ==> rows_wide(v@, 2),
        ensures
            described matches Err(c) ==> (r matches Err(e) && e@ == op_error("insert_struct"@, c@)),
            described matches Ok(v) ==> (!rows_parse(rows_view(v@)) ==> (r matches Err(e) && e@
                == op_error("insert_struct"@, repr_error(rows_view(v@))))),
            described matches Ok(v) ==> (r is Ok <==> rows_parse(rows_view(v@)) && exists|
                repr: Seq<(String, SQLType)>,
            |
                repr_of_rows(rows_view(v@), repr) && #[trigger] shapes_match(T::sql_shape(), repr)),
            described matches Ok(v) ==> (rows_parse(rows_view(v@)) && r is Err ==> (r matches Err(e)
                && e@ == mismatch_error())),
            described matches Ok(v) ==> forall|repr: Seq<(String, SQLType)>|
                repr_of_rows(rows_view(v@), repr) ==> (r is Ok <==> #[trigger] shapes_match(
                    T::sql_shape(),
                    repr,
                )),
            r matches Ok(q) ==> q@ == insert_text(table_name@, obj.sql_literals()),
    {
        let ghost d = described;
        let table_repr = match Self::get_table_repr(described) {
            Ok(t) => t,
            Err(c) => {
                proof {
                    if d is Ok {
                        let rv = rows_view(d->Ok_0@);
                        assert forall|repr: Seq<(String, SQLType)>|
                            repr_of_rows(rv, repr) implies !#[trigger] shapes_match(
                            T::sql_shape(),
                            repr,
                        ) by {
                            assert forall|i: int| 0 <= i < rv.len() implies type_name_parses(
                                #[trigger] rv[i][1],
                            ) by {
                                assert(repr[i].0@ == rv[i][0]);
                            }
                            assert(rows_parse(rv));
                        }
                    }
                }
                return Err(wrap_error("insert_struct", c));
            },
        };
        let matched = self.check_struct::<T>(&table_repr);
        proof {
            let rv = rows_view(d->Ok_0@);
            assert forall|repr: Seq<(String, SQLType)>| repr_of_rows(rv, repr) implies (
            #[trigger] shapes_match(T::sql_shape(), repr) == matched) by {
                lemma_readings_agree(T::sql_shape(), rv, repr, table_repr@);
            }
        }
        if !matched {
            return Err("Struct did not match what is in the table.".to_string());
        }
        let list = obj.to_sql();
        let ghost lits = literals_of(list@);
        let mut ins = String::new();
        let mut i: usize = 0;
        while i < list.len()
            invariant
                i <= list@.len(),
                lits == literals_of(list@),
                ins@ == join_literals(lits.subrange(0, i as int)),
            decreases list@.len() - i,
        {
            let t = list[i].to_string();
            let ghost pre = lits.subrange(0, i as int);
            assert(lits.subrange(0, i + 1).drop_last() =~= pre);
            if i > 0 {
                push_text(&mut ins, ", ");
            }
            push_text(&mut ins, t.as_str());
            if i == 0 {
                assert(ins@ =~= join_literals(lits.subrange(0, 1)));
            }
            i = i + 1;
        }
        assert(lits.subrange(0, list@.len() as int) =~= lits);
        let mut q = statement("insert into ", table_name, " VALUES(");
        push_text(&mut q, ins.as_str());
        push_text(&mut q, ");");
        Ok(q)
    }

    /// The outcome of the insert statement, with its error named.
    pub fn insert_struct_done(&self, outcome: Result<(), String>) -> (r: Result<(), String>)
        ensures
            outcome is Ok ==> r is Ok,
            outcome matches Err(c) ==> (r matches Err(e) && e@ == op_error("insert_struct"@, c@)),
    {
        wrap_unit("insert_struct", outcome)
    }
}

} // verus!

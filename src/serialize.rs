//! The capability a record type implements to be written to and read from a table.

use vstd::prelude::*;
use crate::text::{decimal_value, int_text, parse_int_in, push_char, push_text};
use crate::types::{SQLFieldType, SQLType, field_type_of, literal_text};

verus! {

/// The query-literal texts of a sequence of values.
pub open spec fn literals_of(values: Seq<SQLType>) -> Seq<Seq<char>> {
    values.map_values(|v: SQLType| literal_text(v))
}

/// `shape` describes the column names and field-type tags of `repr`, in order.
pub open spec fn describes_shape(
    repr: Seq<(&'static str, SQLType)>,
    shape: Seq<(Seq<char>, SQLFieldType)>,
) -> bool {
    &&& repr.len() == shape.len()
    &&& forall|i: int|
        0 <= i < repr.len() ==> (#[trigger] repr[i]).0@ == shape[i].0 && field_type_of(repr[i].1)
            == shape[i].1
}

/// Implement this for a record type to pass it to the helpers that write it to a table.
pub trait SerializeSQL: Sized {
    /// The query-literal texts of the values an instance is written as.
    spec fn sql_literals(&self) -> Seq<Seq<char>>;

    /// The column names and field-type tags that the record type expects, in order.
    spec fn sql_shape() -> Seq<(Seq<char>, SQLFieldType)>;

    /// Whether values are fit to rebuild an instance from (their types are compatible).
    spec fn accepts_values(values: Seq<SQLType>) -> bool;

    /// `r` is the instance that the compatible values `values` rebuild.
    spec fn rebuilt_from_values(values: Seq<SQLType>, r: Self) -> bool;

    /// `r` is the outcome of rebuilding an instance from raw text fields.
    spec fn rebuilt_from_texts(texts: Seq<Seq<char>>, r: Result<Self, String>) -> bool;

    /// This instance's data, as values to pass to SQL.
    fn to_sql(&self) -> (r: Vec<SQLType>)
        ensures
            literals_of(r@) == self.sql_literals(),
    ;

    /// Makes an instance out of values whose types are known to be compatible.
    fn from_sql(from: Vec<SQLType>) -> (r: Self)
        requires
            Self::accepts_values(from@),
        ensures
            Self::rebuilt_from_values(from@, r),
    ;

    /// Makes an instance out of raw text fields; fails when a field does not parse.
    fn from_sql_str(from: Vec<String>) -> (r: Result<Self, String>)
        ensures
            Self::rebuilt_from_texts(from@.map_values(|s: String| s@), r),
    ;

    /// The column names and representative values of the record type, for creating a
    /// table and for checking one. The payloads are placeholders: only the variants count.
    fn new_sql_repr() -> (r: Vec<(&'static str, SQLType)>)
        ensures
            describes_shape(r@, Self::sql_shape()),
    ;
}

/// A sample record: a name, an id and a flag.
#[derive(Debug)]
pub struct TestStruct {
    name: String,
    id: i32,
    flag: i8,
}

impl View for TestStruct {
    type V = (Seq<char>, i32, i8);

    closed spec fn view(&self) -> (Seq<char>, i32, i8) {
        (self.name@, self.id, self.flag)
    }
}

/// The error for a field of raw text that does not parse.
pub open spec fn bad_field_error(field: Seq<char>, text: Seq<char>) -> Seq<char> {
    "Invalid "@ + field + ": "@ + text
}

fn bad_field(field: &str, text: &String) -> (r: String)
    ensures
        r@ == bad_field_error(field@, text@),
{
    let mut e = "Invalid ".to_string();
    push_text(&mut e, field);
    push_text(&mut e, ": ");
    push_text(&mut e, text.as_str());
    e
}

impl SerializeSQL for TestStruct {
    open spec fn sql_literals(&self) -> Seq<Seq<char>> {
        seq![
            seq!['\''] + self@.0 + seq!['\''],
            int_text(self@.1 as int),
            int_text(self@.2 as int),
        ]
    }

    open spec fn sql_shape() -> Seq<(Seq<char>, SQLFieldType)> {
        seq![
            ("name"@, SQLFieldType::VarChar),
            ("id"@, SQLFieldType::Long),
            ("flag"@, SQLFieldType::Tiny),
        ]
    }

    open spec fn accepts_values(values: Seq<SQLType>) -> bool {
        &&& values.len() == 3
        &&& values[0] is VarChar
        &&& values[1] is Int
        &&& values[2] is Tiny
    }

    open spec fn rebuilt_from_values(values: Seq<SQLType>, r: Self) -> bool {
        &&& values[0] matches SQLType::VarChar(s, _) && r@.0 == s@
        &&& values[1] matches SQLType::Int(i) && r@.1 == i
        &&& values[2] matches SQLType::Tiny(f) && r@.2 == f
    }

    open spec fn rebuilt_from_texts(texts: Seq<Seq<char>>, r: Result<Self, String>) -> bool {
        if texts.len() < 3 {
            r matches Err(e) && e@ == "Expected three fields"@
        } else if !(decimal_value(texts[1]) matches Some(v) && i32::MIN <= v <= i32::MAX) {
            r matches Err(e) && e@ == bad_field_error("id"@, texts[1])
        } else if !(decimal_value(texts[2]) matches Some(v) && i8::MIN <= v <= i8::MAX) {
            r matches Err(e) && e@ == bad_field_error("flag"@, texts[2])
        } else {
            r matches Ok(t) && t@.0 == texts[0] && Some(t@.1 as int) == decimal_value(texts[1])
                && Some(t@.2 as int) == decimal_value(texts[2])
        }
    }

    fn to_sql(&self) -> (r: Vec<SQLType>) {
        let mut quoted = String::new();
        push_char(&mut quoted, '\'');
        push_text(&mut quoted, self.name.as_str());
        push_char(&mut quoted, '\'');
        assert(quoted@ =~= seq!['\''] + self@.0 + seq!['\'']);
        let r = vec![
            SQLType::VarChar(quoted, 60),
            SQLType::Int(self.id),
            SQLType::Tiny(self.flag),
        ];
        assert(literal_text(r@[0]) == quoted@);
        assert(literals_of(r@)[0] == literal_text(r@[0]));
        assert(literals_of(r@)[1] == literal_text(r@[1]));
        assert(literals_of(r@)[2] == literal_text(r@[2]));
        assert(literals_of(r@) =~= self.sql_literals());
        r
    }

    fn from_sql(from: Vec<SQLType>) -> (r: Self) {
        let name = from[0].get_string().unwrap();
        let id = from[1].get_i32().unwrap();
        let flag = from[2].get_i8().unwrap();
        TestStruct { name, id, flag }
    }

    fn from_sql_str(from: Vec<String>) -> (r: Result<Self, String>) {
        let ghost texts = from@.map_values(|s: String| s@);
        if from.len() < 3 {
            return Err("Expected three fields".to_string());
        }
        assert(texts[1] == from@[1]@ && texts[2] == from@[2]@ && texts[0] == from@[0]@);
        let id = match parse_int_in(from[1].as_str(), i32::MIN as i64, i32::MAX as i64) {
            Some(v) => v as i32,
            None => {
                return Err(bad_field("id", &from[1]));
            },
        };
        let flag = match parse_int_in(from[2].as_str(), i8::MIN as i64, i8::MAX as i64) {
            Some(v) => v as i8,
            None => {
                return Err(bad_field("flag", &from[2]));
            },
        };
        Ok(TestStruct { name: from[0].clone(), id, flag })
    }

    fn new_sql_repr() -> (r: Vec<(&'static str, SQLType)>) {
        let r = vec![
            ("name", SQLType::VarChar(String::new(), 60)),
            ("id", SQLType::Int(0)),
            ("flag", SQLType::Tiny(0)),
        ];
        assert(describes_shape(r@, Self::sql_shape()));
        r
    }
}

impl TestStruct {
    /// The sample record `{ name: "Example", id: 0, flag: 0 }`.
    pub fn new() -> (r: Self)
        ensures
            r@ == ("Example"@, 0i32, 0i8),
    {
        TestStruct { name: "Example".to_string(), id: 0, flag: 0 }
    }
}

} // verus!

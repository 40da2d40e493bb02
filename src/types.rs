//! The tagged value model for SQL columns, its text renderings, and the parser for the
//! type names that a table description reports.

use vstd::prelude::*;
use crate::text::{digits_of, int_text, int_to_text, nat_to_text, push_char, push_text};

verus! {

/// The field-type tags that the server uses for its columns. Only compared for equality
/// when a record shape is matched against a table.
#[derive(Clone, Copy, PartialEq, Eq, Structural, Debug)]
pub enum SQLFieldType {
    Decimal,
    Tiny,
    Short,
    Long,
    Float,
    Double,
    NULL,
    Timestamp,
    LongLong,
    Int24,
    Date,
    Time,
    DateTime,
    Year,
    NewDate,
    VarChar,
    Bit,
    TimeStamp2,
    DateTime2,
    Time2,
    NewDecimal,
    Enum,
    SetType,
    TinyBlob,
    MediumBlob,
    LongBlob,
    Blob,
    VarString,
    String,
    Geometry,
}

/// One column value. The variant alone decides the column type used when a table is
/// created and how the value is written in a query.
#[derive(Debug)]
pub enum SQLType {
    /// Tiny, an `i8`.
    Tiny(i8),
    /// Short, an `i16`.
    Short(i16),
    /// Int, an `i32`.
    Int(i32),
    /// Long, an `i64`.
    Long(i64),
    /// Float, a 32-bit float, held as the decimal text that the host writes for it.
    Float(String),
    /// Double, a 64-bit float, held as the decimal text that the host writes for it.
    Double(String),
    /// VarChar: the text and the declared maximum length (advisory, not enforced).
    VarChar(String, usize),
    /// A column type without a variant of its own: the text written in queries, the
    /// type name used when creating a table, and its field-type tag.
    Unsupported(String, String, SQLFieldType),
}

/// The text a value stands for in the body of a query.
pub open spec fn literal_text(v: SQLType) -> Seq<char> {
    match v {
        SQLType::Tiny(x) => int_text(x as int),
        SQLType::Short(x) => int_text(x as int),
        SQLType::Int(x) => int_text(x as int),
        SQLType::Long(x) => int_text(x as int),
        SQLType::Float(t) => t@,
        SQLType::Double(t) => t@,
        SQLType::VarChar(t, _) => t@,
        SQLType::Unsupported(l, _, _) => l@,
    }
}

/// The column type a value asks for when a table is created.
pub open spec fn definition_text(v: SQLType) -> Seq<char> {
    match v {
        SQLType::Tiny(_) => "TINYINT"@,
        SQLType::Short(_) => "SMALLINT"@,
        SQLType::Int(_) => "INT"@,
        SQLType::Long(_) => "BIGINT"@,
        SQLType::Float(_) => "FLOAT"@,
        SQLType::Double(_) => "DOUBLE"@,
        SQLType::VarChar(_, n) => "VARCHAR("@ + digits_of(n as nat) + ")"@,
        SQLType::Unsupported(_, d, _) => d@,
    }
}

/// The field-type tag of a value. An `Int` is tagged `Long`, as the server tags its
/// 32-bit integer columns, and a `Long` is tagged `LongLong`.
pub open spec fn field_type_of(v: SQLType) -> SQLFieldType {
    match v {
        SQLType::Tiny(_) => SQLFieldType::Tiny,
        SQLType::Short(_) => SQLFieldType::Short,
        SQLType::Int(_) => SQLFieldType::Long,
        SQLType::Long(_) => SQLFieldType::LongLong,
        SQLType::Float(_) => SQLFieldType::Float,
        SQLType::Double(_) => SQLFieldType::Double,
        SQLType::VarChar(_, _) => SQLFieldType::VarChar,
        SQLType::Unsupported(_, _, f) => f,
    }
}

/// The part of a reported type name before its first `(` (all of it when there is none).
pub open spec fn type_prefix(s: Seq<char>) -> Seq<char>
    decreases s.len(),
{
    if s.len() == 0 || s[0] == '(' {
        seq![]
    } else {
        seq![s[0]] + type_prefix(s.drop_first())
    }
}

/// Whether a reported type name holds a `(`, so that it splits in two at the first one.
pub open spec fn has_paren(s: Seq<char>) -> bool {
    type_prefix(s).len() < s.len()
}

/// The type names that the parser knows.
pub open spec fn known_type_name(name: Seq<char>) -> bool {
    name == "tinyint"@ || name == "smallint"@ || name == "int"@ || name == "bigint"@ || name
        == "float"@ || name == "double"@ || name == "varchar"@
}

/// `v` is the zero-valued value that the known type name `name` stands for.
pub open spec fn parses_to(name: Seq<char>, v: SQLType) -> bool {
    match v {
        SQLType::Tiny(x) => name == "tinyint"@ && x == 0,
        SQLType::Short(x) => name == "smallint"@ && x == 0,
        SQLType::Int(x) => name == "int"@ && x == 0,
        SQLType::Long(x) => name == "bigint"@ && x == 0,
        SQLType::Float(t) => name == "float"@ && t@ == "0"@,
        SQLType::Double(t) => name == "double"@ && t@ == "0"@,
        SQLType::VarChar(t, n) => name == "varchar"@ && t@.len() == 0 && n == 0,
        SQLType::Unsupported(_, _, _) => false,
    }
}

/// The error for a reported type name that holds no `(`.
pub open spec fn no_suffix_error(words: Seq<char>) -> Seq<char> {
    "Type name has no parenthesised suffix: "@ + words
}

/// The error for a reported type name whose part before `(` is not known.
pub open spec fn unknown_name_error(name: Seq<char>) -> Seq<char> {
    "Unrecognized type name: "@ + name
}

proof fn lemma_type_prefix(s: Seq<char>, p: int)
    requires
        0 <= p <= s.len(),
        p == s.len() || s[p] == '(',
        forall|i: int| 0 <= i < p ==> s[i] != '(',
    ensures
        type_prefix(s) == s.subrange(0, p),
    decreases s.len(),
{
    if s.len() == 0 || s[0] == '(' {
        assert(s.subrange(0, p) =~= seq![]);
    } else {
        let t = s.drop_first();
        assert forall|i: int| 0 <= i < p - 1 implies t[i] != '(' by {
            assert(t[i] == s[i + 1]);
        }
        lemma_type_prefix(t, p - 1);
        assert(s.subrange(0, p) =~= seq![s[0]] + t.subrange(0, p - 1));
    }
}

/// A type name parses to values of one field type only.
pub proof fn lemma_parses_to_field_type(name: Seq<char>, a: SQLType, b: SQLType)
    requires
        parses_to(name, a),
        parses_to(name, b),
    ensures
        field_type_of(a) == field_type_of(b),
{
    reveal_strlit("tinyint");
    reveal_strlit("smallint");
    reveal_strlit("int");
    reveal_strlit("bigint");
    reveal_strlit("float");
    reveal_strlit("double");
    reveal_strlit("varchar");
    assert("tinyint"@.len() == 7 && "smallint"@.len() == 8 && "int"@.len() == 3);
    assert("bigint"@.len() == 6 && "float"@.len() == 5 && "double"@.len() == 6);
    assert("varchar"@.len() == 7);
    assert("tinyint"@[0] != "varchar"@[0]);
    assert("bigint"@[0] != "double"@[0]);
}

fn text_is(p: &String, lit: &str) -> (r: bool)
    ensures
        r == (p@ == lit@),
{
    let l = lit.to_string();
    *p == l
}

impl SQLType {
    /// The text this value stands for in the body of a query. Text is written as it is:
    /// quoting is the caller's part.
    pub fn to_string(&self) -> (r: String)
        ensures
            r@ == literal_text(*self),
    {
        match self {
            SQLType::Tiny(e) => int_to_text(*e as i64),
            SQLType::Short(e) => int_to_text(*e as i64),
            SQLType::Int(e) => int_to_text(*e as i64),
            SQLType::Long(e) => int_to_text(*e),
            SQLType::Float(e) => e.clone(),
            SQLType::Double(e) => e.clone(),
            SQLType::VarChar(e, _) => e.clone(),
            SQLType::Unsupported(e, _, _) => e.clone(),
        }
    }

    /// The column type to use for this value when creating a table.
    pub fn get_name_of_enum(&self) -> (r: String)
        ensures
            r@ == definition_text(*self),
    {
        match self {
            SQLType::Tiny(_) => "TINYINT".to_string(),
            SQLType::Short(_) => "SMALLINT".to_string(),
            SQLType::Int(_) => "INT".to_string(),
            SQLType::Long(_) => "BIGINT".to_string(),
            SQLType::Float(_) => "FLOAT".to_string(),
            SQLType::Double(_) => "DOUBLE".to_string(),
            SQLType::VarChar(_, size) => {
                let mut r = "VARCHAR(".to_string();
                let digits = nat_to_text(*size as u64);
                push_text(&mut r, digits.as_str());
                push_char(&mut r, ')');
                assert(")"@ == seq![')']) by {
                    reveal_strlit(")");
                }
                assert(r@ =~= definition_text(*self));
                r
            },
            SQLType::Unsupported(_, e, _) => e.clone(),
        }
    }

    /// The field-type tag of this value.
    pub fn get_field_type(&self) -> (r: SQLFieldType)
        ensures
            r == field_type_of(*self),
    {
        match self {
            SQLType::Tiny(_) => SQLFieldType::Tiny,
            SQLType::Short(_) => SQLFieldType::Short,
            SQLType::Int(_) => SQLFieldType::Long,
            SQLType::Long(_) => SQLFieldType::LongLong,
            SQLType::Float(_) => SQLFieldType::Float,
            SQLType::Double(_) => SQLFieldType::Double,
            SQLType::VarChar(_, _) => SQLFieldType::VarChar,
            SQLType::Unsupported(_, _, e) => *e,
        }
    }
}

impl SQLType {
    /// Reads a column type name as a table description reports it (`int(11)`,
    /// `varchar(60)`) into the zero-valued value of that type. The name must hold a
    /// `(`; the part before the first one decides the type.
    pub fn from_str(words: &str) -> (r: Result<SQLType, String>)
        ensures
            r is Ok <==> has_paren(words@) && known_type_name(type_prefix(words@)),
            r matches Ok(v) ==> parses_to(type_prefix(words@), v),
            !has_paren(words@) ==> (r matches Err(e) && e@ == no_suffix_error(words@)),
            has_paren(words@) && !known_type_name(type_prefix(words@)) ==> (r matches Err(e)
                && e@ == unknown_name_error(type_prefix(words@))),
    {
        let n = words.unicode_len();
        let mut name = String::new();
        let mut i: usize = 0;
        while i < n && words.get_char(i) != '('
            invariant
                n == words@.len(),
                i <= n,
                name@ == words@.subrange(0, i as int),
                forall|k: int| 0 <= k < i ==> words@[k] != '(',
            decreases n - i,
        {
            push_char(&mut name, words.get_char(i));
            i = i + 1;
            assert(name@ =~= words@.subrange(0, i as int));
        }
        proof {
            lemma_type_prefix(words@, i as int);
        }
        if i == n {
            let mut e = "Type name has no parenthesised suffix: ".to_string();
            push_text(&mut e, words);
            return Err(e);
        }
        if text_is(&name, "tinyint") {
            Ok(SQLType::Tiny(0))
        } else if text_is(&name, "smallint") {
            Ok(SQLType::Short(0))
        } else if text_is(&name, "int") {
            Ok(SQLType::Int(0))
        } else if text_is(&name, "bigint") {
            Ok(SQLType::Long(0))
        } else if text_is(&name, "float") {
            Ok(SQLType::Float("0".to_string()))
        } else if text_is(&name, "double") {
            Ok(SQLType::Double("0".to_string()))
        } else if text_is(&name, "varchar") {
            Ok(SQLType::VarChar(String::new(), 0))
        } else {
            let mut e = "Unrecognized type name: ".to_string();
            push_text(&mut e, name.as_str());
            Err(e)
        }
    }

    /// Whether this is a `Tiny`.
    pub fn is_tiny(&self) -> (r: bool)
        ensures
            r == (*self is Tiny),
    {
        match self {
            SQLType::Tiny(_) => true,
            _ => false,
        }
    }

    /// Whether this is a `Short`.
    pub fn is_short(&self) -> (r: bool)
        ensures
            r == (*self is Short),
    {
        match self {
            SQLType::Short(_) => true,
            _ => false,
        }
    }

    /// Whether this is an `Int`.
    pub fn is_int(&self) -> (r: bool)
        ensures
            r == (*self is Int),
    {
        match self {
            SQLType::Int(_) => true,
            _ => false,
        }
    }

    /// Whether this is a `Long`.
    pub fn is_long(&self) -> (r: bool)
        ensures
            r == (*self is Long),
    {
        match self {
            SQLType::Long(_) => true,
            _ => false,
        }
    }

    /// Whether this is a `Float`.
    pub fn is_float(&self) -> (r: bool)
        ensures
            r == (*self is Float),
    {
        match self {
            SQLType::Float(_) => true,
            _ => false,
        }
    }

    /// Whether this is a `Double`.
    pub fn is_double(&self) -> (r: bool)
        ensures
            r == (*self is Double),
    {
        match self {
            SQLType::Double(_) => true,
            _ => false,
        }
    }

    /// Whether this is a `VarChar`.
    pub fn is_varchar(&self) -> (r: bool)
        ensures
            r == (*self is VarChar),
    {
        match self {
            SQLType::VarChar(_, _) => true,
            _ => false,
        }
    }

    /// Whether this is an `Unsupported`.
    pub fn is_unsupported(&self) -> (r: bool)
        ensures
            r == (*self is Unsupported),
    {
        match self {
            SQLType::Unsupported(_, _, _) => true,
            _ => false,
        }
    }

    /// The payload of a `Tiny`; `None` for any other variant.
    pub fn get_i8(&self) -> (r: Option<i8>)
        ensures
            r == (match *self {
                SQLType::Tiny(i) => Some(i),
                _ => None::<i8>,
            }),
    {
        match self {
            SQLType::Tiny(i) => Some(*i),
            _ => None,
        }
    }

    /// The payload of an `Int`; `None` for any other variant.
    pub fn get_i32(&self) -> (r: Option<i32>)
        ensures
            r == (match *self {
                SQLType::Int(i) => Some(i),
                _ => None::<i32>,
            }),
    {
        match self {
            SQLType::Int(i) => Some(*i),
            _ => None,
        }
    }

    /// The text of a `VarChar`; `None` for any other variant.
    pub fn get_string(&self) -> (r: Option<String>)
        ensures
            r is Some <==> *self is VarChar,
            r matches Some(t) ==> (*self matches SQLType::VarChar(s, _) && t@ == s@),
    {
        match self {
            SQLType::VarChar(s, _) => Some(s.clone()),
            _ => None,
        }
    }
}

} // verus!

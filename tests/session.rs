use sqlwrap::connection::Connection;
use sqlwrap::serialize::TestStruct;
use sqlwrap::types::{SQLFieldType, SQLType};
use sqlwrap::SerializeSQL;

fn described(rows: &[(&str, &str)]) -> Result<Vec<Vec<String>>, String> {
    Ok(rows.iter().map(|(n, t)| vec![n.to_string(), t.to_string()]).collect())
}

fn nul(s: &str) -> Vec<u8> {
    let mut v = s.as_bytes().to_vec();
    v.push(0);
    v
}

#[test]
fn test_connection() {
    let conn = Connection::new("test");
    assert_eq!(conn.db(), "test");
    let create = Connection::create_table_query("teststruct", "name VARCHAR(60), id INT, flag TINYINT");
    assert_eq!(create, "create table teststruct (name VARCHAR(60), id INT, flag TINYINT);");
    assert!(conn.create_table(Ok(())).is_ok());
    let rows = described(&[("name", "varchar(60)"), ("id", "int(11)"), ("flag", "tinyint(4)")]);
    let stmt = conn.insert_struct("teststruct", &TestStruct::new(), rows).unwrap();
    assert!(conn.insert_struct_done(Ok(())).is_ok());
    assert_eq!(stmt, "insert into teststruct VALUES('Example', 0, 0);");
    assert_eq!(Connection::drop_table_query("teststruct"), "drop table teststruct;");
    assert!(conn.drop_table(Ok(())).is_ok());
}

#[test]
fn example_record_matches_table() {
    let conn = Connection::new("test");
    let repr = Connection::get_table_repr(described(&[
        ("name", "varchar(60)"),
        ("id", "int(11)"),
        ("flag", "tinyint(4)"),
    ]))
    .unwrap();
    assert!(repr[0].1.get_field_type() == SQLFieldType::VarChar);
    assert!(repr[1].1.get_field_type() == SQLFieldType::Long);
    assert!(repr[2].1.get_field_type() == SQLFieldType::Tiny);
    assert!(conn.check_struct::<TestStruct>(&repr));
}

#[test]
fn check_ignores_payloads_and_names() {
    let conn = Connection::new("test");
    let repr = vec![
        ("other".to_string(), SQLType::VarChar("zzz".to_string(), 5)),
        ("x".to_string(), SQLType::Int(99)),
        ("y".to_string(), SQLType::Tiny(-1)),
    ];
    assert!(conn.check_struct::<TestStruct>(&repr));
}

#[test]
fn check_fails_on_length() {
    let conn = Connection::new("test");
    let repr = vec![
        ("name".to_string(), SQLType::VarChar(String::new(), 60)),
        ("id".to_string(), SQLType::Int(0)),
    ];
    assert!(!conn.check_struct::<TestStruct>(&repr));
    assert!(!conn.check_struct::<TestStruct>(&Vec::new()));
}

#[test]
fn check_fails_on_one_position() {
    let conn = Connection::new("test");
    let repr = vec![
        ("name".to_string(), SQLType::VarChar(String::new(), 60)),
        ("id".to_string(), SQLType::Long(0)),
        ("flag".to_string(), SQLType::Tiny(0)),
    ];
    assert!(!conn.check_struct::<TestStruct>(&repr));
}

#[test]
fn insert_refused_on_mismatch() {
    let conn = Connection::new("test");
    let rows = described(&[("name", "varchar(60)"), ("id", "bigint(20)"), ("flag", "tinyint(4)")]);
    let e = conn.insert_struct("teststruct", &TestStruct::new(), rows).unwrap_err();
    assert_eq!(e, "Struct did not match what is in the table.");
    let rows = described(&[("name", "varchar(60)")]);
    assert!(conn.insert_struct("teststruct", &TestStruct::new(), rows).is_err());
}

#[test]
fn insert_refused_when_describe_fails() {
    let conn = Connection::new("test");
    let e = conn
        .insert_struct("nope", &TestStruct::new(), Err("Table 'test.nope' doesn't exist".to_string()))
        .unwrap_err();
    assert_eq!(e, "insert_struct failed: Table 'test.nope' doesn't exist");
}

#[test]
fn table_repr_names_unknown_type() {
    let e = Connection::get_table_repr(described(&[("id", "int(11)"), ("body", "mediumtext(5)")]))
        .unwrap_err();
    assert!(e.contains("mediumtext"));
    let e = Connection::get_table_repr(described(&[("body", "text")])).unwrap_err();
    assert!(e.contains("text"));
    let conn = Connection::new("test");
    let rows = described(&[("name", "varchar(60)"), ("id", "int(11)"), ("flag", "blob(3)")]);
    let e = conn.insert_struct("t", &TestStruct::new(), rows).unwrap_err();
    assert_eq!(e, "insert_struct failed: Unrecognized type name: blob");
}

#[test]
fn no_res_failure_carries_diagnostic() {
    let conn = Connection::new("test");
    let diag = "You have an error in your SQL syntax; check the manual near 'selec' at line 1";
    let e = conn.raw_query_no_res("selec 1;", Err(nul(diag))).unwrap_err();
    assert!(e.contains(diag));
    assert_eq!(e, format!("Query of (selec 1;) failed. Reason: {}", diag));
    assert!(conn.raw_query_no_res("select 1;", Ok(())).is_ok());
}

#[test]
fn raw_query_decodes_rows() {
    let conn = Connection::new("test");
    let rows = vec![vec![nul("a"), nul("1"), nul("extra")], vec![nul("b"), nul("2"), nul("")]];
    let v = conn.raw_query(2, Ok(rows)).unwrap();
    assert_eq!(v, vec![vec!["a".to_string(), "1".to_string()], vec!["b".to_string(), "2".to_string()]]);
    let e = conn.raw_query(1, Err(nul("Lost connection"))).unwrap_err();
    assert_eq!(e, "Lost connection");
    assert_eq!(conn.raw_query(1, Ok(Vec::new())).unwrap(), Vec::<Vec<String>>::new());
}

#[test]
fn raw_query_width_must_be_positive() {
    assert_eq!(Connection::raw_query_width(3), Ok(3));
    assert_eq!(
        Connection::raw_query_width(0).unwrap_err(),
        "Invalid width for query. Must be larger than zero. Given width was 0"
    );
    assert!(Connection::raw_query_width(-4).unwrap_err().ends_with("-4"));
}

#[test]
fn connect_error_carries_diagnostic() {
    let e = Connection::connect_error(&nul("Access denied for user ''@'localhost'"));
    assert_eq!(e, "Failed to connect to SQL. Reason: Access denied for user ''@'localhost'");
}

#[test]
fn switch_db_updates_name() {
    let mut conn = Connection::new("test");
    assert_eq!(Connection::switch_db_query("other"), "use other;");
    assert!(conn.switch_db("other".to_string(), Ok(())).is_ok());
    assert_eq!(conn.db(), "other");
    let e = conn.switch_db("missing".to_string(), Err("Unknown database".to_string())).unwrap_err();
    assert_eq!(e, "switch_db failed: Unknown database");
    assert_eq!(conn.db(), "other");
}

#[test]
fn tables_list_and_reads() {
    let conn = Connection::new("test");
    assert_eq!(Connection::get_tables_list_query(), "show tables;");
    let rows = Ok(vec![vec!["a".to_string()], vec!["b".to_string()]]);
    assert_eq!(conn.get_tables_list(rows).unwrap(), vec!["a".to_string(), "b".to_string()]);
    let e = conn.get_tables_list(Err("gone".to_string())).unwrap_err();
    assert_eq!(e, "get_tables_list failed: gone");
    assert_eq!(Connection::read_table_strings_query("t"), "select * from t;");
    let rows = vec![vec!["1".to_string(), "x".to_string()]];
    assert_eq!(conn.read_table_strings(Ok(rows.clone())).unwrap(), rows);
    assert_eq!(
        conn.read_table_strings(Err("bad".to_string())).unwrap_err(),
        "read_table_strings failed: bad"
    );
    assert_eq!(Connection::get_table_repr_query("t"), "describe t;");
    assert_eq!(conn.create_table(Err("exists".to_string())).unwrap_err(), "create_table failed: exists");
    assert_eq!(conn.drop_table(Err("no".to_string())).unwrap_err(), "drop_table failed: no");
    assert_eq!(conn.insert_struct_done(Err("dup".to_string())).unwrap_err(), "insert_struct failed: dup");
}

#[test]
fn sample_record_serializes() {
    let t = TestStruct::new();
    let values = t.to_sql();
    let texts: Vec<String> = values.iter().map(|v| v.to_string()).collect();
    assert_eq!(texts, vec!["'Example'", "0", "0"]);
    let repr = TestStruct::new_sql_repr();
    let names: Vec<&str> = repr.iter().map(|p| p.0).collect();
    assert_eq!(names, vec!["name", "id", "flag"]);
    assert!(repr[1].1.get_field_type() == SQLFieldType::Long);
}

#[test]
fn sample_record_from_values_and_texts() {
    let r = TestStruct::from_sql(vec![
        SQLType::VarChar("Bob".to_string(), 60),
        SQLType::Int(12),
        SQLType::Tiny(-3),
    ]);
    let texts: Vec<String> = r.to_sql().iter().map(|v| v.to_string()).collect();
    assert_eq!(texts, vec!["'Bob'", "12", "-3"]);
    let r = TestStruct::from_sql_str(vec!["Ann".to_string(), "7".to_string(), "1".to_string()]).unwrap();
    let texts: Vec<String> = r.to_sql().iter().map(|v| v.to_string()).collect();
    assert_eq!(texts, vec!["'Ann'", "7", "1"]);
    let e = TestStruct::from_sql_str(vec!["Ann".to_string(), "x".to_string(), "1".to_string()]).unwrap_err();
    assert_eq!(e, "Invalid id: x");
    let e = TestStruct::from_sql_str(vec!["Ann".to_string(), "1".to_string(), "300".to_string()]).unwrap_err();
    assert_eq!(e, "Invalid flag: 300");
    let e = TestStruct::from_sql_str(vec!["Ann".to_string()]).unwrap_err();
    assert_eq!(e, "Expected three fields");
}

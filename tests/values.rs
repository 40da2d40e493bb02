use sqlwrap::text::{int_to_text, nat_to_text, parse_int_in};
use sqlwrap::types::{SQLFieldType, SQLType};

#[test]
fn literal_text_of_numbers() {
    assert_eq!(SQLType::Tiny(127).to_string(), "127");
    assert_eq!(SQLType::Tiny(-128).to_string(), "-128");
    assert_eq!(SQLType::Short(0).to_string(), "0");
    assert_eq!(SQLType::Int(-42).to_string(), "-42");
    assert_eq!(SQLType::Long(i64::MIN).to_string(), "-9223372036854775808");
    assert_eq!(SQLType::Long(i64::MAX).to_string(), "9223372036854775807");
}

#[test]
fn literal_text_of_text_values() {
    assert_eq!(SQLType::VarChar("'Example'".to_string(), 60).to_string(), "'Example'");
    assert_eq!(SQLType::Float(1.5f32.to_string()).to_string(), "1.5");
    assert_eq!(SQLType::Double("2.25".to_string()).to_string(), "2.25");
    let u = SQLType::Unsupported("NOW()".to_string(), "DATETIME".to_string(), SQLFieldType::DateTime);
    assert_eq!(u.to_string(), "NOW()");
}

#[test]
fn definition_text() {
    assert_eq!(SQLType::Tiny(5).get_name_of_enum(), "TINYINT");
    assert_eq!(SQLType::Short(5).get_name_of_enum(), "SMALLINT");
    assert_eq!(SQLType::Int(5).get_name_of_enum(), "INT");
    assert_eq!(SQLType::Long(5).get_name_of_enum(), "BIGINT");
    assert_eq!(SQLType::Float("0".to_string()).get_name_of_enum(), "FLOAT");
    assert_eq!(SQLType::Double("0".to_string()).get_name_of_enum(), "DOUBLE");
    assert_eq!(SQLType::VarChar(String::new(), 60).get_name_of_enum(), "VARCHAR(60)");
    assert_eq!(SQLType::VarChar(String::new(), 0).get_name_of_enum(), "VARCHAR(0)");
    let u = SQLType::Unsupported("x".to_string(), "DATETIME".to_string(), SQLFieldType::DateTime);
    assert_eq!(u.get_name_of_enum(), "DATETIME");
}

#[test]
fn field_types() {
    assert!(SQLType::Tiny(1).get_field_type() == SQLFieldType::Tiny);
    assert!(SQLType::Short(1).get_field_type() == SQLFieldType::Short);
    assert!(SQLType::Int(1).get_field_type() == SQLFieldType::Long);
    assert!(SQLType::Long(1).get_field_type() == SQLFieldType::LongLong);
    assert!(SQLType::VarChar(String::new(), 1).get_field_type() == SQLFieldType::VarChar);
    let u = SQLType::Unsupported(String::new(), String::new(), SQLFieldType::Blob);
    assert!(u.get_field_type() == SQLFieldType::Blob);
}

#[test]
fn predicates_and_extractors() {
    assert!(SQLType::Tiny(3).is_tiny() && !SQLType::Tiny(3).is_int());
    assert!(SQLType::Short(3).is_short());
    assert!(SQLType::Int(3).is_int() && !SQLType::Int(3).is_long());
    assert!(SQLType::Long(3).is_long());
    assert!(SQLType::Float("1".to_string()).is_float());
    assert!(SQLType::Double("1".to_string()).is_double());
    assert!(SQLType::VarChar(String::new(), 2).is_varchar());
    assert!(SQLType::Unsupported(String::new(), String::new(), SQLFieldType::Bit).is_unsupported());
    assert_eq!(SQLType::Tiny(-7).get_i8(), Some(-7));
    assert_eq!(SQLType::Int(7).get_i8(), None);
    assert_eq!(SQLType::Int(70000).get_i32(), Some(70000));
    assert_eq!(SQLType::Tiny(7).get_i32(), None);
    assert_eq!(SQLType::VarChar("abc".to_string(), 3).get_string(), Some("abc".to_string()));
    assert_eq!(SQLType::Int(1).get_string(), None);
}

#[test]
fn parse_known_type_names() {
    assert!(matches!(SQLType::from_str("tinyint(4)"), Ok(SQLType::Tiny(0))));
    assert!(matches!(SQLType::from_str("smallint(6)"), Ok(SQLType::Short(0))));
    assert!(matches!(SQLType::from_str("int(11)"), Ok(SQLType::Int(0))));
    assert!(matches!(SQLType::from_str("bigint(20)"), Ok(SQLType::Long(0))));
    match SQLType::from_str("varchar(60)") {
        Ok(SQLType::VarChar(s, n)) => assert!(s.is_empty() && n == 0),
        other => panic!("unexpected {:?}", other),
    }
    match SQLType::from_str("float(7,2)") {
        Ok(SQLType::Float(s)) => assert_eq!(s, "0"),
        other => panic!("unexpected {:?}", other),
    }
    match SQLType::from_str("double(10,3)") {
        Ok(SQLType::Double(s)) => assert_eq!(s, "0"),
        other => panic!("unexpected {:?}", other),
    }
    assert!(SQLType::from_str("int(11) unsigned").unwrap().get_field_type() == SQLFieldType::Long);
}

#[test]
fn parse_rejects_unknown_name() {
    let e = SQLType::from_str("text(20)").unwrap_err();
    assert_eq!(e, "Unrecognized type name: text");
    let e = SQLType::from_str("VARCHAR(60)").unwrap_err();
    assert!(e.contains("VARCHAR"));
}

#[test]
fn parse_requires_parenthesis() {
    let e = SQLType::from_str("float").unwrap_err();
    assert_eq!(e, "Type name has no parenthesised suffix: float");
    assert!(SQLType::from_str("").is_err());
}

#[test]
fn definition_text_does_not_parse_back() {
    assert!(SQLType::from_str(&SQLType::Int(0).get_name_of_enum()).is_err());
    assert!(SQLType::from_str(&SQLType::VarChar(String::new(), 60).get_name_of_enum()).is_err());
}

#[test]
fn decimal_helpers() {
    assert_eq!(nat_to_text(0), "0");
    assert_eq!(nat_to_text(1234567890), "1234567890");
    assert_eq!(int_to_text(-5), "-5");
    assert_eq!(parse_int_in("42", -100, 100), Some(42));
    assert_eq!(parse_int_in("-100", -100, 100), Some(-100));
    assert_eq!(parse_int_in("+7", -100, 100), Some(7));
    assert_eq!(parse_int_in("101", -100, 100), None);
    assert_eq!(parse_int_in("-", -100, 100), None);
    assert_eq!(parse_int_in("", -100, 100), None);
    assert_eq!(parse_int_in("1x", -100, 100), None);
    assert_eq!(parse_int_in("99999999999999999999999", -100, 100), None);
}

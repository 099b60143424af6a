use rbdc_oracle::decode::{date_value, decode_number, decode_text, decimal_value, unconstrained_value, Decode};
use bigdecimal::BigDecimal;
use rbdc_oracle::decimal::{read_decimal, render_decimal, Decimal};
use std::str::FromStr;
use rbdc_oracle::value::{Error, IntegerFault, Value};
use rbdc_oracle::{NativeType, OracleData};

fn text_cell(column_type: NativeType, text: &str) -> OracleData {
    OracleData { str: Some(text.to_string()), bin: None, column_type, is_sql_null: false }
}

fn shown(r: Result<Value, Error>) -> String {
    format!("{:?}", r)
}

#[test]
fn number_precision_boundaries() {
    assert_eq!(shown(Value::decode(&text_cell(NativeType::Number(9, 0), "123456789"))), "Ok(I32(123456789))");
    assert_eq!(shown(Value::decode(&text_cell(NativeType::Number(1, 0), "7"))), "Ok(I32(7))");
    assert_eq!(shown(Value::decode(&text_cell(NativeType::Number(10, 0), "123"))), "Ok(I64(123))");
    assert_eq!(shown(Value::decode(&text_cell(NativeType::Number(18, 0), "-5"))), "Ok(I64(-5))");
    assert_eq!(
        shown(Value::decode(&text_cell(NativeType::Number(19, 0), "1234567890123456789"))),
        "Ok(Ext(\"Decimal\", String(\"1234567890123456789\")))"
    );
    assert_eq!(
        shown(Value::decode(&text_cell(NativeType::Number(38, 0), "12"))),
        "Ok(Ext(\"Decimal\", String(\"12\")))"
    );
}

#[test]
fn number_with_scale_is_decimal() {
    for precision in [1u8, 5, 9, 10, 18, 19, 38] {
        assert_eq!(
            shown(Value::decode(&text_cell(NativeType::Number(precision, 2), "65.5"))),
            "Ok(Ext(\"Decimal\", String(\"65.5\")))"
        );
    }
    assert_eq!(
        shown(Value::decode(&text_cell(NativeType::Number(5, 1), "7"))),
        "Ok(Ext(\"Decimal\", String(\"7\")))"
    );
}

#[test]
fn number_with_negative_scale_goes_by_precision() {
    assert_eq!(shown(Value::decode(&text_cell(NativeType::Number(5, -2), "12300"))), "Ok(I32(12300))");
    assert_eq!(shown(Value::decode(&text_cell(NativeType::Number(12, -2), "12300"))), "Ok(I64(12300))");
}

#[test]
fn unconstrained_number() {
    let t = NativeType::Number(0, -127);
    assert_eq!(shown(Value::decode(&text_cell(t, "123456789"))), "Ok(I32(123456789))");
    assert_eq!(shown(Value::decode(&text_cell(t, "99.5"))), "Ok(Ext(\"Decimal\", String(\"99.5\")))");
    assert_eq!(shown(Value::decode(&text_cell(t, "0"))), "Ok(I32(0))");
    assert_eq!(shown(Value::decode(&text_cell(t, "-999999999"))), "Ok(I32(-999999999))");
    assert_eq!(shown(Value::decode(&text_cell(t, "1234567890"))), "Ok(I64(1234567890))");
    assert_eq!(shown(Value::decode(&text_cell(t, "2200000000"))), "Ok(I64(2200000000))");
    assert_eq!(shown(Value::decode(&text_cell(t, "-123456789012345678"))), "Ok(I64(-123456789012345678))");
    assert_eq!(
        shown(Value::decode(&text_cell(t, "1234567890123456789"))),
        "Ok(Ext(\"Decimal\", String(\"1234567890123456789\")))"
    );
}

#[test]
fn unconstrained_number_that_is_whole_but_not_plain() {
    let t = NativeType::Number(0, -127);
    assert_eq!(shown(Value::decode(&text_cell(t, "100.00"))), "Err(Integer(InvalidDigit))");
    assert_eq!(shown(Value::decode(&text_cell(t, "1e5"))), "Err(Integer(InvalidDigit))");
}

#[test]
fn malformed_number() {
    let t = NativeType::Number(0, -127);
    assert!(matches!(Value::decode(&text_cell(t, "abc")), Err(Error::Decimal(_))));
    assert!(matches!(Value::decode(&text_cell(t, "")), Err(Error::Decimal(_))));
    assert!(matches!(Value::decode(&text_cell(NativeType::Number(5, 2), "x")), Err(Error::Decimal(_))));
    assert_eq!(shown(Value::decode(&text_cell(NativeType::Number(9, 0), "12a"))), "Err(Integer(InvalidDigit))");
    assert_eq!(shown(Value::decode(&text_cell(NativeType::Number(9, 0), ""))), "Err(Integer(Empty))");
    assert_eq!(shown(Value::decode(&text_cell(NativeType::Number(9, 0), "2200000000"))), "Err(Integer(PosOverflow))");
    assert_eq!(shown(Value::decode(&text_cell(NativeType::Number(9, 0), "-2200000000"))), "Err(Integer(NegOverflow))");
    assert_eq!(
        shown(Value::decode(&text_cell(NativeType::Number(18, 0), "9223372036854775808"))),
        "Err(Integer(PosOverflow))"
    );
}

#[test]
fn exponent_of_any_size_is_accepted() {
    for text in ["1e10001", "1e-10001", "1E+40", "-2.5e-300", "1e999999999999", "1e-999999999999", "0e-20000"] {
        let canonical = BigDecimal::from_str(text).unwrap().to_string();
        for t in [NativeType::Number(5, 2), NativeType::Number(38, 0), NativeType::Number(0, 0)] {
            assert_eq!(
                shown(Value::decode(&text_cell(t, text))),
                format!("Ok(Ext(\"Decimal\", String({:?})))", canonical),
                "{}",
                text
            );
        }
    }
}

#[test]
fn unconstrained_number_in_exponent_notation() {
    let t = NativeType::Number(0, -127);
    for text in ["1e-10001", "-2.5e-300", "1e-999999999999", "15e-1", "1234567890123456789e3"] {
        let canonical = BigDecimal::from_str(text).unwrap().to_string();
        assert_eq!(
            shown(Value::decode(&text_cell(t, text))),
            format!("Ok(Ext(\"Decimal\", String({:?})))", canonical),
            "{}",
            text
        );
    }
    for text in ["1e10001", "1e999999999999", "0e-20000", "0e-999999999999", "1.5e1", "1e5", "1e40"] {
        assert_eq!(shown(Value::decode(&text_cell(t, text))), "Err(Integer(InvalidDigit))", "{}", text);
    }
    for text in ["1e", "1ex", "1e5e5", "e5"] {
        assert!(matches!(Value::decode(&text_cell(t, text)), Err(Error::Decimal(_))), "{}", text);
    }
}

#[test]
fn read_decimal_reads_what_the_parser_says() {
    let d = read_decimal("065.50").unwrap();
    assert!(!d.is_integer);
    assert_eq!(d.digits, 4);
    assert_eq!(d.text, "65.50");
    let d = read_decimal("-1200").unwrap();
    assert!(d.is_integer);
    assert_eq!(d.digits, 4);
    assert_eq!(d.text, "-1200");
    let d = read_decimal("7.00").unwrap();
    assert!(d.is_integer);
    assert_eq!(d.digits, 3);
    assert!(matches!(read_decimal("1..2"), Err(Error::Decimal(_))));
    match read_decimal("") {
        Err(Error::Decimal(text)) => assert_eq!(text, BigDecimal::from_str("").unwrap_err().to_string()),
        other => panic!("{:?}", other),
    }
}

#[test]
fn read_decimal_agrees_with_the_parser() {
    for text in [
        "0", "-0", "0.0", "0.000", "1", "10", "100.00", "0.001", "0.10", "12.5", "-12.50", "1e5", "1e-5",
        "10e-1", "15e-1", "1200e-2", "1200e-3", "0e-50", "0e50", "123456789", "1234567890.0",
        "99999999999999999999999999", "0.00000000000000000000000001", "1_000", "+7",
    ] {
        let parsed = BigDecimal::from_str(text).unwrap();
        let d = read_decimal(text).unwrap();
        assert_eq!(d.is_integer, parsed.is_integer(), "{}", text);
        assert_eq!(d.digits, parsed.digits(), "{}", text);
        assert_eq!(d.text, parsed.to_string(), "{}", text);
        assert_eq!(render_decimal(text).unwrap(), parsed.to_string(), "{}", text);
    }
}

#[test]
fn read_decimal_of_a_large_scale() {
    let d = read_decimal("1e-999999999999").unwrap();
    assert!(!d.is_integer);
    assert_eq!(d.digits, 1);
    let d = read_decimal("0e-999999999999").unwrap();
    assert!(d.is_integer);
    assert_eq!(d.digits, 1);
    let d = read_decimal("1e999999999999").unwrap();
    assert!(d.is_integer);
    assert_eq!(d.digits, 1);
    assert!(matches!(render_decimal("1e99999999999999999999999999999999999999999"), Err(Error::Decimal(_))));
}

#[test]
fn null_cell_of_any_type() {
    for t in [
        NativeType::Number(0, -127),
        NativeType::Number(9, 0),
        NativeType::Int64,
        NativeType::Float(126),
        NativeType::Date,
        NativeType::Blob,
        NativeType::Long,
        NativeType::Clob,
        NativeType::NClob,
        NativeType::Other,
    ] {
        assert_eq!(shown(Value::decode(&OracleData::null(t))), "Ok(Null)");
        let odd = OracleData { str: Some("not a number".to_string()), bin: Some(vec![1]), column_type: t, is_sql_null: true };
        assert_eq!(shown(Value::decode(&odd)), "Ok(Null)");
    }
}

#[test]
fn fixed_width_integer() {
    assert_eq!(shown(Value::decode(&text_cell(NativeType::Int64, "42"))), "Ok(I32(42))");
    assert_eq!(shown(Value::decode(&text_cell(NativeType::Int64, "+42"))), "Ok(I32(42))");
    assert_eq!(shown(Value::decode(&text_cell(NativeType::Int64, "-2147483648"))), "Ok(I32(-2147483648))");
    assert_eq!(shown(Value::decode(&text_cell(NativeType::Int64, "2147483648"))), "Err(Integer(PosOverflow))");
    assert_eq!(shown(Value::decode(&text_cell(NativeType::Int64, "4.2"))), "Err(Integer(InvalidDigit))");
}

#[test]
fn float_width_by_precision() {
    assert_eq!(shown(Value::decode(&text_cell(NativeType::Float(24), "1.5"))), "Ok(F64(\"1.5\"))");
    assert_eq!(shown(Value::decode(&text_cell(NativeType::Float(126), "1.5"))), "Ok(F64(\"1.5\"))");
    assert_eq!(shown(Value::decode(&text_cell(NativeType::Float(23), "1.5"))), "Ok(F32(\"1.5\"))");
    assert_eq!(shown(Value::decode(&text_cell(NativeType::Float(0), "1.5"))), "Ok(F32(\"1.5\"))");
}

#[test]
fn date_time_cell() {
    match Value::decode(&text_cell(NativeType::Date, "2022-09-01 10:33:07")) {
        Ok(Value::Ext(tag, payload)) => {
            assert_eq!(tag, "DateTime");
            match *payload {
                Value::String(t) => assert!(t.starts_with("2022-09-01T10:33:07"), "{}", t),
                other => panic!("{:?}", other),
            }
        }
        other => panic!("{:?}", other),
    }
    assert!(matches!(Value::decode(&text_cell(NativeType::Date, "yesterday")), Err(Error::Date(_))));
    assert_eq!(
        shown(Value::decode(&text_cell(NativeType::Date, "2022-09-01 10:33:0７"))),
        "Err(Date(\"a date-time text holds a character that is not ASCII\"))"
    );
}

#[test]
fn date_value_of_each_outcome() {
    assert_eq!(
        shown(date_value(Ok("2022-09-01T10:33:07Z".to_string()))),
        "Ok(Ext(\"DateTime\", String(\"2022-09-01T10:33:07Z\")))"
    );
    assert_eq!(shown(date_value(Err("bad".to_string()))), "Err(Date(\"bad\"))");
}

#[test]
fn large_binary_object() {
    let bytes = "def".repeat(999_999).into_bytes();
    let cell = OracleData::binary(Some(bytes.clone()));
    match Value::decode(&cell) {
        Ok(Value::Binary(b)) => assert_eq!(b, bytes),
        other => panic!("{:?}", other),
    }
    assert_eq!(shown(Value::decode(&OracleData::binary(None))), "Ok(Null)");
    assert_eq!(shown(Value::decode(&OracleData::null(NativeType::Blob))), "Ok(Null)");
}

#[test]
fn long_text_and_character_objects() {
    let text = "abc".repeat(999_999);
    for t in [NativeType::Long, NativeType::Clob, NativeType::NClob] {
        match Value::decode(&text_cell(t, &text)) {
            Ok(Value::String(s)) => assert_eq!(s, text),
            other => panic!("{:?}", other),
        }
    }
}

#[test]
fn unrecognized_type() {
    assert_eq!(shown(Value::decode(&text_cell(NativeType::Other, "x y"))), "Ok(String(\"x y\"))");
    let bare = OracleData { str: None, bin: None, column_type: NativeType::Other, is_sql_null: false };
    assert_eq!(shown(Value::decode(&bare)), "Err(Unimplemented)");
}

#[test]
fn missing_text() {
    for t in [NativeType::Number(9, 0), NativeType::Int64, NativeType::Float(1), NativeType::Date, NativeType::Long, NativeType::Clob, NativeType::NClob] {
        assert_eq!(shown(Value::decode(&OracleData::text(t, None))), "Err(MissingText)");
    }
}

#[test]
fn key_column_of_ten_digits() {
    let cell = text_cell(NativeType::Number(10, 0), "2200000000");
    match Value::decode(&cell) {
        Ok(Value::I64(n)) => assert_eq!(n, 2200000000),
        other => panic!("{:?}", other),
    }
}

#[test]
fn functions_on_given_readings() {
    let whole = |digits: u64, text: &str| Ok(Decimal { is_integer: true, digits, text: text.to_string() });
    assert_eq!(shown(unconstrained_value("123", whole(3, "123"))), "Ok(I32(123))");
    assert_eq!(shown(unconstrained_value("123", whole(9, "123"))), "Ok(I32(123))");
    assert_eq!(shown(unconstrained_value("123", whole(10, "123"))), "Ok(I64(123))");
    assert_eq!(shown(unconstrained_value("123", whole(18, "123"))), "Ok(I64(123))");
    assert_eq!(shown(unconstrained_value("123", whole(19, "123"))), "Ok(Ext(\"Decimal\", String(\"123\")))");
    assert_eq!(shown(unconstrained_value("123", whole(0, "123"))), "Ok(Ext(\"Decimal\", String(\"123\")))");
    let part = Ok(Decimal { is_integer: false, digits: 3, text: "1.23".to_string() });
    assert_eq!(shown(unconstrained_value("1.23", part)), "Ok(Ext(\"Decimal\", String(\"1.23\")))");
    assert_eq!(shown(unconstrained_value("1", Err(Error::Decimal("no".to_string())))), "Err(Decimal(\"no\"))");
    assert_eq!(shown(decimal_value(Ok("5".to_string()))), "Ok(Ext(\"Decimal\", String(\"5\")))");
    assert_eq!(shown(decimal_value(Err(Error::Decimal("no".to_string())))), "Err(Decimal(\"no\"))");
    assert_eq!(shown(decode_number("12", 9, 0)), "Ok(I32(12))");
    assert_eq!(shown(decode_text(NativeType::Clob, "12")), "Ok(String(\"12\"))");
}

#[test]
fn integer_faults() {
    assert_eq!(IntegerFault::Empty, IntegerFault::Empty);
    assert_ne!(IntegerFault::PosOverflow, IntegerFault::NegOverflow);
}

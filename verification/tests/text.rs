use rbdc_oracle::text::{digit_to_char, push_decimal, read_i32, read_i64, read_integer, same_text};
use rbdc_oracle::value::IntegerFault;
use rbdc_oracle::{NativeType, OracleColumn};

fn std_fault(kind: &std::num::IntErrorKind) -> IntegerFault {
    match kind {
        std::num::IntErrorKind::Empty => IntegerFault::Empty,
        std::num::IntErrorKind::InvalidDigit => IntegerFault::InvalidDigit,
        std::num::IntErrorKind::PosOverflow => IntegerFault::PosOverflow,
        std::num::IntErrorKind::NegOverflow => IntegerFault::NegOverflow,
        other => panic!("{:?}", other),
    }
}

const TEXTS: [&str; 34] = [
    "", "+", "-", "0", "-0", "+0", "7", "007", "-007", "12a", "a12", " 12", "12 ", "1 2", "+-1", "--1",
    "2147483647", "2147483648", "-2147483648", "-2147483649", "999999999", "9999999999",
    "9223372036854775807", "9223372036854775808", "-9223372036854775808", "-9223372036854775809",
    "99999999999999999999999999x", "x99999999999999999999999999", "-99999999999999999999999999x",
    "１２", "1.0", "1e3", "0000000000000000000000000000001", "+2147483647",
];

#[test]
fn read_i32_agrees_with_std() {
    for text in TEXTS {
        let expected = text.parse::<i32>().map_err(|e| std_fault(e.kind()));
        assert_eq!(read_i32(text), expected, "{:?}", text);
    }
}

#[test]
fn read_i64_agrees_with_std() {
    for text in TEXTS {
        let expected = text.parse::<i64>().map_err(|e| std_fault(e.kind()));
        assert_eq!(read_i64(text), expected, "{:?}", text);
    }
}

#[test]
fn read_integer_within_bounds() {
    assert_eq!(read_integer("10000", -10_000, 10_000), Ok(10_000));
    assert_eq!(read_integer("10001", -10_000, 10_000), Err(IntegerFault::PosOverflow));
    assert_eq!(read_integer("-10000", -10_000, 10_000), Ok(-10_000));
    assert_eq!(read_integer("-10001", -10_000, 10_000), Err(IntegerFault::NegOverflow));
    assert_eq!(read_integer("0", 0, 0), Ok(0));
    assert_eq!(read_integer("1", 0, 0), Err(IntegerFault::PosOverflow));
}

#[test]
fn decimal_text_of_numbers() {
    for n in [0usize, 1, 9, 10, 11, 99, 100, 101, 12345, 4294967295, usize::MAX] {
        let mut out = String::from("x");
        push_decimal(&mut out, n);
        assert_eq!(out, format!("x{}", n));
    }
    assert_eq!(digit_to_char(0), '0');
    assert_eq!(digit_to_char(9), '9');
}

#[test]
fn same_text_compares_characters() {
    assert!(same_text("begin", "begin"));
    assert!(!same_text("begin", "Begin"));
    assert!(!same_text("begin", "begin "));
    assert!(same_text("", ""));
}

#[test]
fn column_name_is_lower_cased() {
    let c = OracleColumn::new("ID_CARD", NativeType::Number(10, 0), "Number(10, 0)");
    assert_eq!(c.name, "id_card");
    assert_eq!(c.column_type, NativeType::Number(10, 0));
    assert_eq!(c.type_label, "Number(10, 0)");
    assert_eq!(OracleColumn::new("ÄGE", NativeType::Int64, "Int64").name, "äge");
}

use wasm_host::decimal::{chars_of, read_decimal, write_decimal, write_digits};
use wasm_host::value::{parse, render, Argument, CodecError, Output, Value, ValueKind};

fn argument(text: &str) -> Argument {
    Argument {
        text: text.to_string(),
        single: text.parse::<f32>().ok().map(f32::to_bits),
        double: text.parse::<f64>().ok().map(f64::to_bits),
    }
}

fn text(output: Output) -> String {
    match output {
        Output::Text(line) => line,
        other => panic!("expected text, got {:?}", other),
    }
}

#[test]
fn chars_of_gives_the_characters_in_order() {
    assert_eq!(chars_of("a-1"), vec!['a', '-', '1']);
    assert_eq!(chars_of(""), Vec::<char>::new());
    assert_eq!(chars_of("é7"), vec!['é', '7']);
}

#[test]
fn read_decimal_reads_plain_digits() {
    assert_eq!(read_decimal("0", -10, 10), Some(0));
    assert_eq!(read_decimal("7", -10, 10), Some(7));
    assert_eq!(read_decimal("1234567890", i64::MIN, i64::MAX), Some(1234567890));
}

#[test]
fn read_decimal_accepts_one_sign() {
    assert_eq!(read_decimal("+7", -10, 10), Some(7));
    assert_eq!(read_decimal("-7", -10, 10), Some(-7));
    assert_eq!(read_decimal("-0", -10, 10), Some(0));
    assert_eq!(read_decimal("--7", -10, 10), None);
    assert_eq!(read_decimal("+-7", -10, 10), None);
    assert_eq!(read_decimal("7-", -10, 10), None);
}

#[test]
fn read_decimal_accepts_leading_zeros() {
    assert_eq!(read_decimal("007", -10, 10), Some(7));
    assert_eq!(
        read_decimal("-000000000000000000000000000000000000000009", -10, 10),
        Some(-9)
    );
}

#[test]
fn read_decimal_refuses_what_is_no_number() {
    assert_eq!(read_decimal("", -10, 10), None);
    assert_eq!(read_decimal("+", -10, 10), None);
    assert_eq!(read_decimal("-", -10, 10), None);
    assert_eq!(read_decimal(" 7", -10, 10), None);
    assert_eq!(read_decimal("7 ", -10, 10), None);
    assert_eq!(read_decimal("1_0", -100, 100), None);
    assert_eq!(read_decimal("0x10", -100, 100), None);
    assert_eq!(read_decimal("1.0", -100, 100), None);
    assert_eq!(read_decimal("٣", -100, 100), None);
}

#[test]
fn read_decimal_holds_to_the_bounds() {
    assert_eq!(read_decimal("10", -10, 10), Some(10));
    assert_eq!(read_decimal("11", -10, 10), None);
    assert_eq!(read_decimal("-10", -10, 10), Some(-10));
    assert_eq!(read_decimal("-11", -10, 10), None);
    assert_eq!(
        read_decimal("9223372036854775807", i64::MIN, i64::MAX),
        Some(i64::MAX)
    );
    assert_eq!(read_decimal("9223372036854775808", i64::MIN, i64::MAX), None);
    assert_eq!(
        read_decimal("-9223372036854775808", i64::MIN, i64::MAX),
        Some(i64::MIN)
    );
    assert_eq!(read_decimal("-9223372036854775809", i64::MIN, i64::MAX), None);
    assert_eq!(
        read_decimal("99999999999999999999999999999999999999999999", i64::MIN, i64::MAX),
        None
    );
}

#[test]
fn read_decimal_agrees_with_the_standard_reader() {
    let samples = [
        "0", "-0", "+0", "1", "-1", "2147483647", "2147483648", "-2147483648", "-2147483649",
        "", "+", "-", "12a", "a12", "0012", "+-1", "1e3", "١٢",
    ];
    for sample in samples.iter() {
        assert_eq!(
            read_decimal(sample, i32::MIN as i64, i32::MAX as i64),
            sample.parse::<i32>().ok().map(|n| n as i64),
            "on {:?}",
            sample
        );
        assert_eq!(
            read_decimal(sample, i64::MIN, i64::MAX),
            sample.parse::<i64>().ok(),
            "on {:?}",
            sample
        );
    }
}

#[test]
fn write_decimal_writes_sign_and_digits() {
    assert_eq!(write_decimal(0), "0");
    assert_eq!(write_decimal(7), "7");
    assert_eq!(write_decimal(-7), "-7");
    assert_eq!(write_decimal(10), "10");
    assert_eq!(write_decimal(1002003), "1002003");
    assert_eq!(write_decimal(i64::MAX), "9223372036854775807");
    assert_eq!(write_decimal(i64::MIN), "-9223372036854775808");
}

#[test]
fn write_digits_appends_to_what_is_there() {
    let mut out = String::from("n=");
    write_digits(&mut out, 405);
    assert_eq!(out, "n=405");
    write_digits(&mut out, 0);
    assert_eq!(out, "n=4050");
    let mut wide = String::new();
    write_digits(&mut wide, u128::MAX);
    assert_eq!(wide, "340282366920938463463374607431768211455");
}

#[test]
fn parse_reads_the_integer_kinds() {
    assert_eq!(parse(&argument("3"), ValueKind::Int32), Ok(Value::Int32(3)));
    assert_eq!(parse(&argument("-3"), ValueKind::Int32), Ok(Value::Int32(-3)));
    assert_eq!(
        parse(&argument("2147483647"), ValueKind::Int32),
        Ok(Value::Int32(i32::MAX))
    );
    assert_eq!(
        parse(&argument("-2147483648"), ValueKind::Int32),
        Ok(Value::Int32(i32::MIN))
    );
    assert_eq!(
        parse(&argument("2147483648"), ValueKind::Int64),
        Ok(Value::Int64(2147483648))
    );
    assert_eq!(
        parse(&argument("-9223372036854775808"), ValueKind::Int64),
        Ok(Value::Int64(i64::MIN))
    );
}

#[test]
fn parse_reports_the_text_and_kind_that_failed() {
    assert_eq!(
        parse(&argument("2147483648"), ValueKind::Int32),
        Err(CodecError::ParseFailure { text: "2147483648".to_string(), kind: ValueKind::Int32 })
    );
    assert_eq!(
        parse(&argument("three"), ValueKind::Int64),
        Err(CodecError::ParseFailure { text: "three".to_string(), kind: ValueKind::Int64 })
    );
    assert_eq!(
        parse(&argument(""), ValueKind::Int32),
        Err(CodecError::ParseFailure { text: String::new(), kind: ValueKind::Int32 })
    );
    assert_eq!(
        parse(&argument("1.5"), ValueKind::Int32),
        Err(CodecError::ParseFailure { text: "1.5".to_string(), kind: ValueKind::Int32 })
    );
    assert_eq!(
        parse(&argument("one half"), ValueKind::Float32),
        Err(CodecError::ParseFailure { text: "one half".to_string(), kind: ValueKind::Float32 })
    );
    assert_eq!(
        parse(&argument("one half"), ValueKind::Float64),
        Err(CodecError::ParseFailure { text: "one half".to_string(), kind: ValueKind::Float64 })
    );
}

#[test]
fn parse_takes_a_float_from_its_reading() {
    assert_eq!(
        parse(&argument("1.5"), ValueKind::Float32),
        Ok(Value::Float32(1.5f32.to_bits()))
    );
    assert_eq!(
        parse(&argument("1.5"), ValueKind::Float64),
        Ok(Value::Float64(1.5f64.to_bits()))
    );
    assert_eq!(
        parse(&argument("-0.25e2"), ValueKind::Float64),
        Ok(Value::Float64((-25.0f64).to_bits()))
    );
    let odd = Argument { text: "x".to_string(), single: Some(9), double: None };
    assert_eq!(parse(&odd, ValueKind::Float32), Ok(Value::Float32(9)));
    assert_eq!(
        parse(&odd, ValueKind::Float64),
        Err(CodecError::ParseFailure { text: "x".to_string(), kind: ValueKind::Float64 })
    );
}

#[test]
fn parse_ignores_the_readings_for_an_integer() {
    let plain = Argument { text: "12".to_string(), single: None, double: None };
    assert_eq!(parse(&plain, ValueKind::Int32), Ok(Value::Int32(12)));
    let odd = Argument { text: "12".to_string(), single: Some(1), double: Some(2) };
    assert_eq!(parse(&odd, ValueKind::Int64), Ok(Value::Int64(12)));
}

#[test]
fn parse_refuses_the_kinds_that_are_not_read_from_text() {
    for kind in [ValueKind::FunctionRef, ValueKind::AnyRef, ValueKind::Vector128].iter() {
        assert_eq!(
            parse(&argument("1"), *kind),
            Err(CodecError::UnsupportedInputKind { kind: *kind })
        );
    }
}

#[test]
fn numeric_tells_the_four_kinds_that_are_read() {
    assert!(ValueKind::Int32.numeric());
    assert!(ValueKind::Int64.numeric());
    assert!(ValueKind::Float32.numeric());
    assert!(ValueKind::Float64.numeric());
    assert!(!ValueKind::FunctionRef.numeric());
    assert!(!ValueKind::AnyRef.numeric());
    assert!(!ValueKind::Vector128.numeric());
}

#[test]
fn kind_names_the_kind_of_each_value() {
    assert_eq!(Value::Int32(1).kind(), ValueKind::Int32);
    assert_eq!(Value::Int64(1).kind(), ValueKind::Int64);
    assert_eq!(Value::Float32(1).kind(), ValueKind::Float32);
    assert_eq!(Value::Float64(1).kind(), ValueKind::Float64);
    assert_eq!(Value::FunctionRef.kind(), ValueKind::FunctionRef);
    assert_eq!(Value::AnyRef.kind(), ValueKind::AnyRef);
    assert_eq!(Value::Vector128(1).kind(), ValueKind::Vector128);
}

#[test]
fn render_writes_every_kind() {
    assert_eq!(render(&Value::Int32(7)), Output::Text("7".to_string()));
    assert_eq!(render(&Value::Int32(-2147483648)), Output::Text("-2147483648".to_string()));
    assert_eq!(render(&Value::Int64(-9)), Output::Text("-9".to_string()));
    assert_eq!(render(&Value::Float32(1.5f32.to_bits())), Output::Single(1.5f32.to_bits()));
    assert_eq!(render(&Value::Float64(2.5f64.to_bits())), Output::Double(2.5f64.to_bits()));
    assert_eq!(render(&Value::FunctionRef), Output::Text("<funcref>".to_string()));
    assert_eq!(render(&Value::AnyRef), Output::Text("<anyref>".to_string()));
    assert_eq!(render(&Value::Vector128(0)), Output::Text("0".to_string()));
    assert_eq!(
        render(&Value::Vector128(1u128 << 100)),
        Output::Text("1267650600228229401496703205376".to_string())
    );
}

#[test]
fn render_tells_the_two_reference_kinds_apart() {
    assert_ne!(render(&Value::FunctionRef), render(&Value::AnyRef));
}

#[test]
fn integers_come_back_from_their_text() {
    let samples32 = [0, 1, -1, 9, 10, -10, 99, 100, 65535, i32::MAX, i32::MIN, i32::MIN + 1];
    for n in samples32.iter() {
        let line = text(render(&Value::Int32(*n)));
        assert_eq!(parse(&argument(&line), ValueKind::Int32), Ok(Value::Int32(*n)));
    }
    let samples64 = [0, 1, -1, 4294967296, i64::MAX, i64::MIN, i64::MIN + 1, -1000000007];
    for n in samples64.iter() {
        let line = text(render(&Value::Int64(*n)));
        assert_eq!(parse(&argument(&line), ValueKind::Int64), Ok(Value::Int64(*n)));
    }
}

#[test]
fn integers_come_back_whatever_the_readings_say() {
    let line = text(render(&Value::Int32(-45)));
    let odd = Argument { text: line, single: Some(3), double: None };
    assert_eq!(parse(&odd, ValueKind::Int32), Ok(Value::Int32(-45)));
}

#[test]
fn floats_come_back_through_their_decimal_text() {
    for x in [0.0f32, 1.5, -2.25, 3.4e38, 1.0e-40].iter() {
        let written = match render(&Value::Float32(x.to_bits())) {
            Output::Single(bits) => format!("{}", f32::from_bits(bits)),
            other => panic!("expected a single, got {:?}", other),
        };
        assert_eq!(
            parse(&argument(&written), ValueKind::Float32),
            Ok(Value::Float32(x.to_bits()))
        );
    }
    for x in [0.0f64, 1.5, -2.25, 1.7e308, 5.0e-324].iter() {
        let written = match render(&Value::Float64(x.to_bits())) {
            Output::Double(bits) => format!("{}", f64::from_bits(bits)),
            other => panic!("expected a double, got {:?}", other),
        };
        assert_eq!(
            parse(&argument(&written), ValueKind::Float64),
            Ok(Value::Float64(x.to_bits()))
        );
    }
}

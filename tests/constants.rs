use butte_build::ast::{FloatConstant, Ident, Scalar, SingleValue};
use butte_build::ir;
use butte_build::render::{scalar_code, single_value_code};

#[test]
fn test_visit_floating_constant() {
    let result = scalar_code(&Scalar::Float(FloatConstant::new(&format!("{}", 1.0f64))));
    let expected = "1f64";
    assert_eq!(result, expected);
}

#[test]
fn test_visit_integer_constant() {
    let result = scalar_code(&Scalar::Integer(1));
    let expected = "1i32";
    assert_eq!(result, expected);
}

#[test]
fn test_visit_string_constant() {
    let result = single_value_code(&SingleValue::StringConstant("abc".to_string()));
    let expected = "\"abc\"";
    assert_eq!(result, expected);
}

#[test]
fn test_visit_bool_constant() {
    let result = scalar_code(&Scalar::Boolean(true));
    let expected = "true";
    assert_eq!(result, expected);

    let result = scalar_code(&Scalar::Boolean(false));
    let expected = "false";
    assert_eq!(result, expected);
}

#[test]
fn test_visit_ident() {
    let result = Ident::new("foo").code();
    let expected = "foo";
    assert_eq!(result, expected);
}

#[test]
fn codegen_test_visit_ident() {
    let result = ir::Ident::new("foo").code();
    let expected = "foo";
    assert_eq!(result, expected);
}

#[test]
fn literals_read_back_as_their_values() {
    let int_text = scalar_code(&Scalar::Integer(1));
    assert_eq!(int_text.strip_suffix("i32").unwrap().parse::<i32>().unwrap(), 1);
    let float_text = scalar_code(&Scalar::Float(FloatConstant::new(&format!("{}", 1.0f64))));
    assert_eq!(float_text.strip_suffix("f64").unwrap().parse::<f64>().unwrap(), 1.0);
    let string_text = single_value_code(&SingleValue::StringConstant("abc".to_string()));
    let inner = string_text.strip_prefix('"').unwrap().strip_suffix('"').unwrap();
    assert_eq!(inner, "abc");
    assert_eq!(scalar_code(&Scalar::Boolean(true)).parse::<bool>().unwrap(), true);
    assert_eq!(scalar_code(&Scalar::Boolean(false)).parse::<bool>().unwrap(), false);
}

#[test]
fn negative_integer_literal() {
    assert_eq!(scalar_code(&Scalar::Integer(-42)), "-42i32");
    assert_eq!(scalar_code(&Scalar::Integer(i64::MIN)), "-9223372036854775808i32");
}

#[test]
fn string_constant_is_escaped() {
    let result = single_value_code(&SingleValue::StringConstant("a\"b".to_string()));
    assert_eq!(result, "\"a\\\"b\"");
}

use camera_mount::number::Number;
use camera_mount::value::Value;

#[test]
fn as_number_gives_the_number_of_a_numeric_value() {
    assert_eq!(Value::Number(Number::Unsigned(50)).as_number(), Some(Number::Unsigned(50)));
    assert_eq!(Value::Number(Number::Signed(-7)).as_number(), Some(Number::Signed(-7)));
    let half = Number::Binary { negative: false, mantissa: 1, exponent: -1 };
    assert_eq!(Value::Number(half).as_number(), Some(half));
}

#[test]
fn as_number_gives_none_for_other_values() {
    assert_eq!(Value::Null.as_number(), None);
    assert_eq!(Value::Bool(true).as_number(), None);
    assert_eq!(Value::Text(String::from("50")).as_number(), None);
    assert_eq!(Value::Array(vec![Value::Number(Number::Unsigned(50))]).as_number(), None);
    assert_eq!(Value::Object(vec![(String::from("v"), Value::Number(Number::Unsigned(50)))]).as_number(), None);
}

#[test]
fn values_of_one_number_in_two_forms_are_two_values() {
    assert_ne!(Value::Number(Number::Unsigned(50)), Value::Number(Number::Signed(50)));
    assert_ne!(Value::Number(Number::Unsigned(50)), Value::Text(String::from("50")));
}

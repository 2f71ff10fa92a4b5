use alice_skill::json::{JsonNumber, JsonValue};

fn object(members: Vec<(&str, JsonValue)>) -> JsonValue {
    JsonValue::Object(members.into_iter().map(|(k, v)| (k.to_string(), v)).collect())
}

fn num(n: u64) -> JsonValue {
    JsonValue::Number(JsonNumber::PosInt(n))
}

#[test]
fn get_finds_a_member() {
    let v = object(vec![("a", num(1)), ("b", JsonValue::Bool(true)), ("c", JsonValue::Null)]);
    assert_eq!(v.get("a"), Some(&num(1)));
    assert_eq!(v.get("b"), Some(&JsonValue::Bool(true)));
    assert_eq!(v.get("c"), Some(&JsonValue::Null));
}

#[test]
fn get_misses_what_is_not_there() {
    let v = object(vec![("a", num(1))]);
    assert_eq!(v.get("b"), None);
    assert_eq!(v.get(""), None);
    assert_eq!(v.get("A"), None);
    assert_eq!(v.get("aa"), None);
    assert_eq!(object(vec![]).get("a"), None);
}

#[test]
fn get_takes_the_last_of_repeated_names() {
    let v = object(vec![("a", num(1)), ("b", num(2)), ("a", num(3))]);
    assert_eq!(v.get("a"), Some(&num(3)));
    assert_eq!(v.get("b"), Some(&num(2)));
}

#[test]
fn get_on_other_values_is_none() {
    assert_eq!(JsonValue::Null.get("a"), None);
    assert_eq!(JsonValue::Bool(true).get("a"), None);
    assert_eq!(num(1).get("a"), None);
    assert_eq!(JsonValue::String("a".to_string()).get("a"), None);
    assert_eq!(JsonValue::Array(vec![object(vec![("a", num(1))])]).get("a"), None);
}

#[test]
fn get_does_not_look_into_nested_objects() {
    let v = object(vec![("outer", object(vec![("inner", num(1))]))]);
    assert_eq!(v.get("inner"), None);
    assert_eq!(v.get("outer").unwrap().get("inner"), Some(&num(1)));
}

#[test]
fn get_compares_whole_names() {
    let v = object(vec![("год", num(1)), ("year", num(2))]);
    assert_eq!(v.get("год"), Some(&num(1)));
    assert_eq!(v.get("го"), None);
    assert_eq!(v.get("year"), Some(&num(2)));
}

#[test]
fn number_as_i32() {
    assert_eq!(JsonNumber::PosInt(0).as_i32(), Some(0));
    assert_eq!(JsonNumber::PosInt(2147483647).as_i32(), Some(i32::MAX));
    assert_eq!(JsonNumber::PosInt(2147483648).as_i32(), None);
    assert_eq!(JsonNumber::PosInt(u64::MAX).as_i32(), None);
    assert_eq!(JsonNumber::NegInt(-1).as_i32(), Some(-1));
    assert_eq!(JsonNumber::NegInt(-2147483648).as_i32(), Some(i32::MIN));
    assert_eq!(JsonNumber::NegInt(-2147483649).as_i32(), None);
    assert_eq!(JsonNumber::NegInt(i64::MIN).as_i32(), None);
    assert_eq!(JsonNumber::NegInt(7).as_i32(), Some(7));
    assert_eq!(JsonNumber::NegInt(i64::MAX).as_i32(), None);
    assert_eq!(JsonNumber::Float(2.0f64.to_bits()).as_i32(), None);
    assert_eq!(JsonNumber::Float(0).as_i32(), None);
}

#[test]
fn clone_copies_the_whole_value() {
    let v = object(vec![
        ("n", JsonValue::Null),
        ("b", JsonValue::Bool(false)),
        ("i", JsonValue::Number(JsonNumber::NegInt(-5))),
        ("f", JsonValue::Number(JsonNumber::Float(1.5f64.to_bits()))),
        ("s", JsonValue::String("льва толстого".to_string())),
        ("a", JsonValue::Array(vec![num(1), JsonValue::Array(vec![]), object(vec![("x", num(2))])])),
        ("o", object(vec![("k", object(vec![("k", JsonValue::Array(vec![JsonValue::Null]))]))])),
        ("n", num(9)),
    ]);
    let copy = v.clone();
    assert_eq!(copy, v);
    assert_eq!(JsonValue::Null.clone(), JsonValue::Null);
    assert_eq!(JsonValue::Array(vec![]).clone(), JsonValue::Array(vec![]));
    assert_eq!(object(vec![]).clone(), object(vec![]));
    assert_ne!(object(vec![]).clone(), JsonValue::Array(vec![]));
}

#[test]
fn clone_is_independent_of_its_source() {
    let mut v = JsonValue::Array(vec![num(1), num(2)]);
    let copy = v.clone();
    if let JsonValue::Array(items) = &mut v {
        items.push(num(3));
    }
    assert_eq!(copy, JsonValue::Array(vec![num(1), num(2)]));
    assert_eq!(v, JsonValue::Array(vec![num(1), num(2), num(3)]));
}

#[test]
fn default_is_null() {
    assert_eq!(JsonValue::default(), JsonValue::Null);
}

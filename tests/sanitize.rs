use backend::{sanitize_underscores_to_empty, JsonValue, Member};

fn s(t: &str) -> JsonValue {
    JsonValue::Str(t.to_string())
}

fn arr(items: Vec<JsonValue>) -> JsonValue {
    JsonValue::Array(items)
}

fn obj(members: Vec<(&str, JsonValue)>) -> JsonValue {
    JsonValue::Object(
        members
            .into_iter()
            .map(|(k, v)| Member { key: k.to_string(), value: v })
            .collect(),
    )
}

#[test]
fn test_sanitize_simple_values() {
    let input = obj(vec![
        ("a", s("_")),
        ("b", s("hello")),
        ("c", arr(vec![s("__"), s("world"), obj(vec![("d", s("___"))])])),
        ("e", obj(vec![("f", s("value")), ("g", s("_"))])),
    ]);
    let expected = obj(vec![
        ("a", s("")),
        ("b", s("hello")),
        ("c", arr(vec![s(""), s("world"), obj(vec![("d", s(""))])])),
        ("e", obj(vec![("f", s("value")), ("g", s(""))])),
    ]);
    let result = sanitize_underscores_to_empty(input);
    assert_eq!(result, expected);
}

#[test]
fn test_no_underscores() {
    let make = || obj(vec![("x", s("normal")), ("y", arr(vec![s("abc"), obj(vec![("z", s("123"))])]))]);
    let input = make();
    let expected = make();
    let result = sanitize_underscores_to_empty(input);
    assert_eq!(result, expected);
}

#[test]
fn test_nested_empty_underscores() {
    let input = arr(vec![s("_"), obj(vec![("a", arr(vec![s("__"), obj(vec![("b", s("___"))])]))])]);
    let expected = arr(vec![s(""), obj(vec![("a", arr(vec![s(""), obj(vec![("b", s(""))])]))])]);
    let result = sanitize_underscores_to_empty(input);
    assert_eq!(result, expected);
}

#[test]
fn sanitize_product_body_example() {
    let input = obj(vec![("name", s("_")), ("notes", s("x")), ("tags", arr(vec![s("__"), s("y")]))]);
    let expected = obj(vec![("name", s("")), ("notes", s("x")), ("tags", arr(vec![s(""), s("y")]))]);
    assert_eq!(sanitize_underscores_to_empty(input), expected);
}

#[test]
fn sanitize_keeps_empty_and_mixed_strings() {
    let input = arr(vec![s(""), s("_a_"), s("a_"), s(" _"), s("ó_")]);
    let expected = arr(vec![s(""), s("_a_"), s("a_"), s(" _"), s("ó_")]);
    assert_eq!(sanitize_underscores_to_empty(input), expected);
}

#[test]
fn sanitize_keeps_scalars_and_keys() {
    let input = obj(vec![
        ("_", JsonValue::Null),
        ("__", JsonValue::Bool(true)),
        ("n", JsonValue::Number("1.5".to_string())),
        ("u", s("____")),
    ]);
    let expected = obj(vec![
        ("_", JsonValue::Null),
        ("__", JsonValue::Bool(true)),
        ("n", JsonValue::Number("1.5".to_string())),
        ("u", s("")),
    ]);
    assert_eq!(sanitize_underscores_to_empty(input), expected);
}

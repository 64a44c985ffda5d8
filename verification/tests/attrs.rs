use zerolog::{AttrList, AttrValue};

#[test]
fn test_attr() {
    let attr = AttrList::new()
        .add_attr("hello world", AttrValue::Text("this is a test".to_string()))
        .add_attr("what the heck", AttrValue::Int(32))
        .add_attr("yo", AttrValue::Text("foo".to_string()));

    let result = attr.serialize();
    assert_eq!(
        result,
        "{\"hello world\":\"this is a test\",\"what the heck\":32,\"yo\":\"foo\"}"
    );
}

#[test]
fn attr_order_preserved() {
    let attr = AttrList::new()
        .add_attr("a", AttrValue::Int(1))
        .add_attr("b", AttrValue::Int(2))
        .add_attr("c", AttrValue::Int(3));
    assert_eq!(attr.serialize(), "{\"a\":1,\"b\":2,\"c\":3}");
}

#[test]
fn attr_order_preserved_longer_chain() {
    let mut attr = AttrList::new();
    let mut expected = String::from("{");
    for i in 0..10u64 {
        let name = format!("k{}", i);
        attr = attr.add_attr(&name, AttrValue::Uint(i));
        if i > 0 {
            expected.push(',');
        }
        expected.push_str(&format!("\"k{}\":{}", i, i));
    }
    expected.push('}');
    assert_eq!(attr.serialize(), expected);
}

#[test]
fn empty_attrs_serialize_to_empty_object() {
    assert_eq!(AttrList::new().serialize(), "{}");
    assert_eq!(AttrList::new().len(), 0);
}

#[test]
fn attr_value_kinds() {
    let attr = AttrList::new()
        .add_attr("t", AttrValue::Bool(true))
        .add_attr("f", AttrValue::Bool(false))
        .add_attr("n", AttrValue::Null)
        .add_attr("u", AttrValue::Uint(18446744073709551615))
        .add_attr("i", AttrValue::Int(-42));
    assert_eq!(
        attr.serialize(),
        "{\"t\":true,\"f\":false,\"n\":null,\"u\":18446744073709551615,\"i\":-42}"
    );
}

#[test]
fn attr_duplicate_names_pass_through() {
    let attr = AttrList::new()
        .add_attr("k", AttrValue::Int(1))
        .add_attr("k", AttrValue::Int(2));
    assert_eq!(attr.serialize(), "{\"k\":1,\"k\":2}");
}

#[test]
fn attr_names_and_values_are_json_escaped() {
    let attr = AttrList::new().add_attr("qu\"ote", AttrValue::Text("a\\b\nc".to_string()));
    assert_eq!(attr.serialize(), "{\"qu\\\"ote\":\"a\\\\b\\nc\"}");
}

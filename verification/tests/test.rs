use std::collections::HashMap;

use pombase_rc_string::RcString;

struct SerTest {
    field: RcString,
}

struct SerMapTestStruct {
    field1: RcString,
    field2: Option<RcString>,
}

struct SerMapTest {
    field: HashMap<RcString, SerMapTestStruct>,
}

fn ser_map_test_to_json(m: &SerMapTest) -> String {
    let mut keyed = serde_json::Map::new();
    for (key, st) in &m.field {
        let mut inner = serde_json::Map::new();
        inner.insert(
            "field1".to_owned(),
            serde_json::Value::String(st.field1.to_string()),
        );
        match &st.field2 {
            Some(v) => {
                inner.insert(
                    "field2".to_owned(),
                    serde_json::Value::String(v.to_string()),
                );
            }
            None => {
                inner.insert("field2".to_owned(), serde_json::Value::Null);
            }
        }
        keyed.insert(key.to_string(), serde_json::Value::Object(inner));
    }
    let mut outer = serde_json::Map::new();
    outer.insert("field".to_owned(), serde_json::Value::Object(keyed));
    serde_json::to_string(&serde_json::Value::Object(outer)).unwrap()
}

fn ser_map_test_from_json(s: &str) -> SerMapTest {
    let value: serde_json::Value = serde_json::from_str(s).unwrap();
    let mut field = HashMap::new();
    for (key, inner) in value["field"].as_object().unwrap() {
        let field1 = RcString::from(inner["field1"].as_str().unwrap());
        let field2 = inner
            .get("field2")
            .and_then(|v| v.as_str())
            .map(RcString::from);
        field.insert(RcString::from(key.as_str()), SerMapTestStruct { field1, field2 });
    }
    SerMapTest { field }
}

#[test]
fn test() {
    let zero_len = RcString::new("");
    assert_eq!(zero_len.to_string(), "");

    let s = RcString::from("test");
    assert!(s == "test");
    assert_eq!(s.ref_count(), 1);
    assert_eq!(s.to_string(), "test");
    let s1 = s.clone();
    assert_eq!(s.ref_count(), 2);
    assert_eq!(s1.to_string(), "test");

    // An independently constructed value with equal content is equal but
    // does not share the buffer: the count of `s` is unaffected.
    let different_s = RcString::from("test");
    assert_eq!(s.ref_count(), 2);
    assert_eq!(different_s.ref_count(), 1);
    assert!(different_s == "test");

    assert_eq!(s.as_str().to_uppercase(), "TEST");
    assert_eq!(s.as_str().to_uppercase().to_lowercase(), "test");

    {
        let s2 = s.clone();
        assert_eq!(s.ref_count(), 3);
        assert_eq!(s2.ref_count(), 3);
    }

    assert_eq!(s.ref_count(), 2);

    let s3: &str = s.as_str();
    assert_eq!(s3, "test");

    let mut m = SerMapTest {
        field: HashMap::new(),
    };

    let st = SerMapTestStruct {
        field1: RcString::from("field1_value"),
        field2: Some(RcString::from("field1_value")),
    };

    m.field.insert("key".into(), st);

    for key in m.field.keys() {
        assert_eq!(key, "key");
    }
    for v in m.field.values() {
        assert_eq!(v.field1, "field1_value");
    }

    let serialized = ser_map_test_to_json(&m);

    assert_eq!(
        serialized,
        "{\"field\":{\"key\":{\"field1\":\"field1_value\",\"field2\":\"field1_value\"}}}"
    );

    let deserialized_map = ser_map_test_from_json(&serialized);

    assert_eq!(
        deserialized_map
            .field
            .get(&RcString::from("key"))
            .unwrap()
            .field1,
        "field1_value"
    );

    let ser_test = SerTest {
        field: RcString::from("field_value"),
    };

    let serialized = format!("{{\"field\":{}}}", ser_test.field.to_json());

    assert_eq!(serialized, "{\"field\":\"field_value\"}");

    let deserialized_value: serde_json::Value = serde_json::from_str(&serialized).unwrap();
    let deserialized = SerTest {
        field: RcString::from_json(&deserialized_value["field"].to_string()).unwrap(),
    };

    assert_eq!(deserialized.field, "field_value");

    let mut arr: Vec<RcString> = [
        "GO:0006511",
        "GO:0120113",
        "GO:1905530",
        "GO:1905533",
        "GO:0061630",
        "GO:0005737",
        "GO:0005794",
        "GO:0071944",
    ]
    .iter()
    .map(|s| RcString::from(s))
    .collect();

    arr.sort();

    let mut expected_arr: Vec<RcString> = [
        "GO:0005737",
        "GO:0005794",
        "GO:0006511",
        "GO:0061630",
        "GO:0071944",
        "GO:0120113",
        "GO:1905530",
        "GO:1905533",
    ]
    .iter()
    .map(|s| RcString::from(s))
    .collect();

    assert_eq!(arr, expected_arr);

    arr.sort_by(|s1, s2| s2.cmp(&s1));

    expected_arr.reverse();

    assert_eq!(arr, expected_arr);
}

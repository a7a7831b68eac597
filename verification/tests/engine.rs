//! Tests of the concurrent value engine and the opaque value container.

use kvstore::engine::Engine;
use kvstore::value::Value;

#[test]
fn test_set_and_get_raw_for_string() {
    let engine = Engine::new();
    let _ = engine.set(
        "foo".to_string(),
        Value::from_serializable(&"bar").expect("Failed to create value object"),
    );

    match engine.get("foo") {
        Ok(opt) => assert_eq!(
            opt,
            Some(Value::from_serializable(&"bar").expect("Failed to create value object"))
        ),
        Err(e) => panic!("error: {}", e.message()),
    };
}

#[test]
fn test_set_and_get_deserialized_for_string() {
    let engine = Engine::new();
    let string_value = "bar".to_string();
    let _ = engine.set(
        "foo".to_string(),
        Value::from_serializable(&string_value).expect("Failed to create value object"),
    );

    match engine.get("foo") {
        Ok(opt) => {
            match opt {
                Some(val) => assert_eq!(
                    string_value,
                    val.to_deserializable::<String>()
                        .expect("Failed to deserialize value")
                ),
                None => panic!("failed to get value"),
            };
        }
        Err(e) => panic!("error: {}", e.message()),
    };

    println!("value[foo]: {:?}", engine.get("foo"));
}

#[test]
fn test_delete() {
    let engine = Engine::new();
    let _ = engine.set(
        "foo".to_string(),
        Value::from_serializable(&"bar").expect("Failed to create value object"),
    );

    match engine.delete("foo") {
        Ok(opt) => assert_eq!(
            opt,
            Some(Value::from_serializable(&"bar").expect("Failed to create value object"))
        ),
        Err(e) => panic!("error: {}", e.message()),
    };

    match engine.get("foo") {
        Ok(opt) => assert_eq!(opt, None),
        Err(e) => panic!("error: {}", e.message()),
    };
}

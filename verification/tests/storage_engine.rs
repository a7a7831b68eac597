//! Tests of the concurrent string engine.

use kvstore::storage::engine::Engine;

#[test]
fn test_set_and_get() {
    let engine = Engine::new();
    let _ = engine.set("foo".to_string(), "bar".to_string());

    match engine.get("foo") {
        Ok(opt) => assert_eq!(opt, Some("bar".to_string())),
        Err(e) => panic!("error: {}", e.message()),
    };
}

#[test]
fn engine_test_delete() {
    let engine = Engine::new();
    let _ = engine.set("foo".to_string(), "bar".to_string());

    match engine.delete("foo") {
        Ok(opt) => assert_eq!(opt, Some("bar".to_string())),
        Err(e) => panic!("error: {}", e.message()),
    };

    match engine.get("foo") {
        Ok(opt) => assert_eq!(opt, None),
        Err(e) => panic!("error: {}", e.message()),
    };
}

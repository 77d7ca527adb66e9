use rhai_egui::block_cache::BlockCache;
use serde_json::Value;

fn json(text: &str) -> Value {
    serde_json::from_str(text).unwrap()
}

#[test]
fn new_cache_reads_null() {
    let cache = BlockCache::new();
    for slot in 0..=6u8 {
        assert_eq!(*cache.get(slot), Value::Null);
    }
}

#[test]
fn set_then_get_each_slot() {
    let mut cache = BlockCache::new();
    for slot in 1..=4u8 {
        let v = json(&format!("{{\"number\": {}}}", slot));
        cache.set(slot, v.clone());
        assert_eq!(*cache.get(slot), v);
    }
    assert_eq!(*cache.get(2), json("{\"number\": 2}"));
}

#[test]
fn set_keeps_other_slots() {
    let mut cache = BlockCache::new();
    cache.set(3, json("[1, 2]"));
    assert_eq!(*cache.get(1), Value::Null);
    assert_eq!(*cache.get(2), Value::Null);
    assert_eq!(*cache.get(4), Value::Null);
    cache.set(3, json("true"));
    assert_eq!(*cache.get(3), json("true"));
}

#[test]
fn invalid_slot_is_ignored() {
    let mut cache = BlockCache::new();
    cache.set(1, json("1"));
    cache.set(0, json("2"));
    cache.set(5, json("3"));
    cache.set(255, json("4"));
    assert_eq!(*cache.get(0), Value::Null);
    assert_eq!(*cache.get(5), Value::Null);
    assert_eq!(*cache.get(255), Value::Null);
    assert_eq!(*cache.get(1), json("1"));
}

#[test]
fn ui_state_starts_at_zero() {
    let mut cache = BlockCache::new();
    assert_eq!(cache.ui_state().block_number, 0);
    cache.ui_state_mut().block_number = 100;
    assert_eq!(cache.ui_state().block_number, 100);
    assert_eq!(*cache.get(1), Value::Null);
}

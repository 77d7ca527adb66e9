use rhai_egui::tasks::{GuiMessage, MessageKind, StreamMessages};
use rhai_egui::EditorState;
use serde_json::Value;

fn get_block(number: i64, slot: u8) -> StreamMessages {
    StreamMessages::GetBlock {
        number,
        api_key: "key".to_string(),
        endpoint: "https://example.org:443".to_string(),
        cache_slot: slot,
    }
}

fn run(start: i64, stop: u64) -> StreamMessages {
    StreamMessages::Run {
        start,
        stop,
        api_key: "key".to_string(),
        package_file: "pkg.spkg".to_string(),
        endpoint: "https://example.org:443".to_string(),
        module_name: "graph_out".to_string(),
    }
}

#[test]
fn single_block_fetch_fills_its_slot() {
    let request = get_block(100, 2);
    let records = vec!["{\"number\":100}".to_string()];
    let notices = request.session_messages(true, &records);
    let set_blocks = notices
        .iter()
        .filter(|m| matches!(m, GuiMessage::SetBlock(2, _)))
        .count();
    assert_eq!(set_blocks, 1);
    assert_eq!(notices.len(), 2);

    let mut state = EditorState::new(None);
    for n in notices {
        state.apply_gui_message(n);
    }
    let expected: Value = serde_json::from_str("{\"number\":100}").unwrap();
    assert_eq!(*state.block_cache.get(2), expected);
    assert_eq!(*state.block_cache.get(1), Value::Null);
}

#[test]
fn block_fetch_config() {
    let config = get_block(100, 2).stream_config();
    assert_eq!(config.start, 100);
    assert_eq!(config.stop, 101);
    assert_eq!(config.module_name, "map_block_full");
    assert_eq!(
        config.package_file,
        "https://spkg.io/streamingfast/ethereum-explorer-v0.1.2.spkg"
    );
    assert_eq!(config.endpoint_url, "https://example.org:443");
    assert_eq!(config.token, Some("key".to_string()));
}

#[test]
fn range_config() {
    let config = run(-5, 10).stream_config();
    assert_eq!(config.start, -5);
    assert_eq!(config.stop, 10);
    assert_eq!(config.module_name, "graph_out");
    assert_eq!(config.package_file, "pkg.spkg");
}

#[test]
fn range_session_notices() {
    let request = run(12369621, 12369631);
    let records = vec!["{\"a\":1}".to_string(), "{\"a\":2}".to_string()];
    let notices = request.session_messages(true, &records);
    assert_eq!(notices.len(), 4);
    assert!(matches!(&notices[0], GuiMessage::PushMessage(t) if t == "Starting stream from 12369621 to 12369631"));
    assert!(matches!(&notices[1], GuiMessage::PushJson(t) if t == "{\"a\":1}"));
    assert!(matches!(&notices[2], GuiMessage::PushJson(t) if t == "{\"a\":2}"));
    assert!(matches!(&notices[3], GuiMessage::PushMessage(t) if t == "Stream Completed Successfully"));
}

#[test]
fn failed_sessions() {
    let notices = run(-3, 0).session_messages(false, &vec!["x".to_string()]);
    assert_eq!(notices.len(), 1);
    assert!(matches!(&notices[0], GuiMessage::PushMessage(t) if t == "Failed to start stream"));
    let notices = get_block(7, 1).session_messages(false, &vec![]);
    assert_eq!(notices.len(), 1);
    assert!(matches!(&notices[0], GuiMessage::PushMessage(t) if t == "Failed to get block"));
}

#[test]
fn opening_texts() {
    assert!(matches!(run(-3, 0).opened_message(true), GuiMessage::PushMessage(t) if t == "Starting stream from -3 to 0"));
    assert!(matches!(get_block(100, 2).opened_message(true), GuiMessage::PushMessage(t) if t == "Getting block 100"));
    assert!(get_block(1, 1).finished_message().is_none());
}

#[test]
fn set_block_notice_logs_and_caches() {
    let mut state = EditorState::new(None);
    state.apply_gui_message(GuiMessage::SetBlock(3, "{\"number\": 5}".to_string()));
    let v: Value = serde_json::from_str("{\"number\": 5}").unwrap();
    assert_eq!(*state.block_cache.get(3), v);
    assert_eq!(state.messages.len(), 2);
    assert!(matches!(&state.messages[0], MessageKind::TextMessage(t) if t == "Block 3 set"));
    assert!(matches!(&state.messages[1], MessageKind::JsonMessage(j) if *j == v));
}

#[test]
fn malformed_records_are_reported() {
    let mut state = EditorState::new(None);
    state.apply_gui_message(GuiMessage::SetBlock(1, "{not json".to_string()));
    state.apply_gui_message(GuiMessage::PushJson("][".to_string()));
    assert_eq!(*state.block_cache.get(1), Value::Null);
    assert_eq!(state.messages.len(), 2);
    assert!(matches!(&state.messages[0], MessageKind::TextMessage(t) if t == "Error: malformed record: {not json"));
    assert!(matches!(&state.messages[1], MessageKind::TextMessage(t) if t == "Error: malformed record: ]["));
}

#[test]
fn text_json_and_clear_notices() {
    let mut state = EditorState::new(Some("k".to_string()));
    assert_eq!(state.substreams_api_key, "k");
    state.apply_gui_message(GuiMessage::PushMessage("hello".to_string()));
    state.apply_gui_message(GuiMessage::PushJson("[1,2]".to_string()));
    assert_eq!(state.messages.len(), 2);
    assert!(matches!(&state.messages[0], MessageKind::TextMessage(t) if t == "hello"));
    state.apply_gui_message(GuiMessage::ClearMessages);
    assert!(state.messages.is_empty());
}

#[test]
fn invalid_slot_is_reported_and_changes_nothing() {
    let mut state = EditorState::new(None);
    state.apply_gui_message(GuiMessage::SetBlock(5, "{\"number\": 5}".to_string()));
    state.apply_gui_message(GuiMessage::SetBlock(0, "1".to_string()));
    assert_eq!(state.messages.len(), 2);
    assert!(matches!(&state.messages[0], MessageKind::TextMessage(t) if t == "Error: invalid block slot 5"));
    assert!(matches!(&state.messages[1], MessageKind::TextMessage(t) if t == "Error: invalid block slot 0"));
    for slot in 0..=6u8 {
        assert_eq!(*state.block_cache.get(slot), Value::Null);
    }
}

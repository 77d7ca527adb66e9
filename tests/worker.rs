use rhai_egui::tasks::{GuiMessage, WorkerMessage};
use rhai_egui::worker::{build_script, convert_args, Evaluation, ScriptWorker};
use serde_json::Value;
use std::sync::mpsc;

fn text(m: &GuiMessage) -> String {
    match m {
        GuiMessage::PushMessage(t) => t.clone(),
        _ => panic!("a text line"),
    }
}

#[test]
fn bogus_syntax_gives_one_error_line_and_keeps_scope() {
    let mut w = ScriptWorker::new();
    let out = w.handle(WorkerMessage::Eval("let x = 5;".to_string()));
    assert_eq!(out.len(), 1);
    let out = w.handle(WorkerMessage::Eval("bogus syntax".to_string()));
    assert_eq!(out.len(), 1);
    let line = text(&out[0]);
    assert!(line.starts_with("Result: Err("), "{}", line);
    let out = w.handle(WorkerMessage::Eval("x".to_string()));
    assert_eq!(text(&out[0]), "Result: Ok(5)");
}

#[test]
fn not_compiled_is_reported() {
    let mut w = ScriptWorker::new();
    assert!(matches!(w.evaluate("let = ;"), Evaluation::NotCompiled(_)));
    assert!(matches!(w.evaluate("1 + 1"), Evaluation::Ran(Ok(_))));
}

#[test]
fn evaluation_result() {
    let mut w = ScriptWorker::new();
    let out = w.handle(WorkerMessage::Eval("40 + 2".to_string()));
    assert_eq!(text(&out[0]), "Result: Ok(42)");
}

#[test]
fn call_with_json_arguments() {
    let mut w = ScriptWorker::new();
    w.handle(WorkerMessage::Eval("fn foo(b) { b.number + 1 }".to_string()));
    let arg: Value = serde_json::from_str("{\"number\": 100}").unwrap();
    let out = w.handle(WorkerMessage::EvalWithArgs("foo".to_string(), vec![arg]));
    assert_eq!(out.len(), 1);
    match &out[0] {
        GuiMessage::PushJson(t) => assert_eq!(t, "101"),
        _ => panic!("a JSON result"),
    }
}

#[test]
fn call_of_unknown_function_is_an_error() {
    let mut w = ScriptWorker::new();
    let out = w.handle(WorkerMessage::EvalWithArgs("nope".to_string(), vec![]));
    assert_eq!(out.len(), 1);
    assert!(text(&out[0]).starts_with("Error: "));
}

#[test]
fn reset_clears_scope_keeps_code() {
    let mut w = ScriptWorker::new();
    w.handle(WorkerMessage::Eval("let y = 3; fn three() { 3 }".to_string()));
    let out = w.handle(WorkerMessage::Reset);
    assert_eq!(out.len(), 1);
    assert!(matches!(out[0], GuiMessage::ClearMessages));
    let out = w.handle(WorkerMessage::EvalWithArgs("three".to_string(), vec![]));
    assert!(matches!(&out[0], GuiMessage::PushJson(t) if t == "3"));
}

#[test]
fn build_without_codegen_reports_error() {
    let mut w = ScriptWorker::new();
    let out = w.handle(WorkerMessage::Build);
    assert_eq!(out.len(), 1);
    assert!(text(&out[0]).starts_with("Build Log: Err("));
}

#[test]
fn queued_requests_are_handled_in_send_order() {
    let (tx, rx) = mpsc::channel();
    let (out_tx, out_rx) = mpsc::channel();
    for i in 0..5 {
        tx.send(WorkerMessage::Eval(format!("{}", i))).unwrap();
    }
    drop(tx);
    let mut w = ScriptWorker::new();
    for msg in rx {
        for m in w.handle(msg) {
            out_tx.send(m).unwrap();
        }
    }
    drop(out_tx);
    let lines: Vec<String> = out_rx.iter().map(|m| text(&m)).collect();
    let expected: Vec<String> = (0..5).map(|i| format!("Result: Ok({})", i)).collect();
    assert_eq!(lines, expected);
}

#[test]
fn json_arguments_convert_in_order() {
    let args: Vec<Value> = vec![
        serde_json::from_str("1").unwrap(),
        serde_json::from_str("\"two\"").unwrap(),
        serde_json::from_str("[3]").unwrap(),
    ];
    let (values, warnings) = convert_args(&args);
    assert_eq!(values.len(), 3);
    assert!(warnings.is_empty());
    assert_eq!(values[0].as_int().unwrap(), 1);
    assert_eq!(values[1].clone().into_string().unwrap(), "two");
}

#[test]
fn build_runs_codegen() {
    assert_eq!(build_script(), "codegen()");
    let mut w = ScriptWorker::new();
    let out = w.handle(WorkerMessage::Build);
    assert_eq!(out.len(), 1);
    let line = text(&out[0]);
    assert!(line.starts_with("Build Log: Err("), "{}", line);
    assert!(line.contains("codegen"), "{}", line);
}

#[test]
fn reset_can_clear_code_too() {
    let mut w = ScriptWorker::new();
    w.handle(WorkerMessage::Eval("fn three() { 3 }".to_string()));
    w.reset(true, true);
    let out = w.handle(WorkerMessage::EvalWithArgs("three".to_string(), vec![]));
    assert!(text(&out[0]).starts_with("Error: "));
}

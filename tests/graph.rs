use rhai_egui::graph::ModuleGraph;
use rhai_egui::modules::Module;

fn mapper(name: &str, code: &str, inputs: &[&str]) -> Module {
    Module::Mapper {
        name: name.to_string(),
        code: code.to_string(),
        inputs: inputs.iter().map(|s| s.to_string()).collect(),
        editing: false,
    }
}

fn store(name: &str, code: &str, inputs: &[&str], policy: &str) -> Module {
    Module::Store {
        name: name.to_string(),
        code: code.to_string(),
        inputs: inputs.iter().map(|s| s.to_string()).collect(),
        update_policy: policy.to_string(),
        editing: false,
    }
}

fn foo_bar_graph() -> ModuleGraph {
    let mut g = ModuleGraph::new();
    g.insert(1, mapper("foo", "fn foo(BLOCK) { BLOCK.number }", &["BLOCK"]));
    g.insert(2, store("bar", "fn bar(foo, s) { s.set(foo); }", &["foo"], "set"));
    g
}

#[test]
fn generate_map_then_store() {
    let g = foo_bar_graph();
    let text = match g.generate() {
        Ok(t) => t,
        Err(_) => panic!("the graph resolves"),
    };
    let expected = "\nadd_mfn(#{\n    name: \"foo\",\n    inputs: [#{kind: \"source\"}],\n    handler: \"foo\"\n});\n\
fn foo(BLOCK) { BLOCK.number }\n\
\nadd_sfn(#{\n    name: \"bar\",\n    inputs: [#{kind: \"map\", name: \"foo\"}],\n    handler: \"bar\"\n});\n\
fn bar(foo, s) { s.set(foo); }\n";
    assert_eq!(text, expected);
}

#[test]
fn generate_one_registration_per_module_with_every_input() {
    let mut g = foo_bar_graph();
    g.insert(3, mapper("baz", "fn baz(a, b, c) {}", &["bar", "BLOCK", "foo"]));
    let text = g.generate().ok().unwrap();
    assert_eq!(text.matches("add_mfn(").count(), 2);
    assert_eq!(text.matches("add_sfn(").count(), 1);
    assert!(text.contains(
        "inputs: [#{kind: \"store\", name: \"bar\"},#{kind: \"source\"},#{kind: \"map\", name: \"foo\"}]"
    ));
}

#[test]
fn generate_fails_on_unknown_input() {
    let mut g = foo_bar_graph();
    g.insert(3, mapper("qux", "fn qux(x) {}", &["BLOCK", "missing", "gone"]));
    g.insert(4, mapper("later", "fn later(x) {}", &["absent"]));
    match g.generate() {
        Ok(_) => panic!("an unknown input must fail the whole graph"),
        Err(e) => {
            assert_eq!(e.module, "qux");
            assert_eq!(e.input, "missing");
        }
    }
}

#[test]
fn generate_is_deterministic() {
    let g = foo_bar_graph();
    let a = g.generate().ok().unwrap();
    let b = g.generate().ok().unwrap();
    assert_eq!(a, b);
}

#[test]
fn generate_empty_graph() {
    let g = ModuleGraph::new();
    assert_eq!(g.generate().ok().unwrap(), "");
}

#[test]
fn module_with_no_inputs_has_empty_input_list() {
    let mut g = ModuleGraph::new();
    g.insert(7, store("s", "fn s() {}", &[], "setOnce"));
    let text = g.generate().ok().unwrap();
    assert_eq!(
        text,
        "\nadd_sfn(#{\n    name: \"s\",\n    inputs: [],\n    handler: \"s\"\n});\nfn s() {}\n"
    );
}

#[test]
fn input_code_for_each_kind() {
    let g = foo_bar_graph();
    assert_eq!(
        Module::generate_input_code(&"foo".to_string(), &g).unwrap(),
        "#{kind: \"map\", name: \"foo\"}"
    );
    assert_eq!(
        Module::generate_input_code(&"bar".to_string(), &g).unwrap(),
        "#{kind: \"store\", name: \"bar\"}"
    );
    assert_eq!(
        Module::generate_input_code(&"BLOCK".to_string(), &g).unwrap(),
        "#{kind: \"source\"}"
    );
    assert!(Module::generate_input_code(&"nope".to_string(), &g).is_none());
}

#[test]
fn module_named_block_shadows_the_source() {
    let mut g = ModuleGraph::new();
    g.insert(1, mapper("BLOCK", "", &[]));
    assert_eq!(
        Module::generate_input_code(&"BLOCK".to_string(), &g).unwrap(),
        "#{kind: \"map\", name: \"BLOCK\"}"
    );
}

#[test]
fn register_module_text() {
    let g = foo_bar_graph();
    let m = g.get(2).unwrap();
    assert_eq!(
        m.register_module(&g).ok().unwrap(),
        "\nadd_sfn(#{\n    name: \"bar\",\n    inputs: [#{kind: \"map\", name: \"foo\"}],\n    handler: \"bar\"\n});\n"
    );
}

#[test]
fn insert_replaces_same_identity() {
    let mut g = foo_bar_graph();
    let previous = g.insert(1, mapper("foo2", "", &["BLOCK"]));
    assert_eq!(previous.unwrap().name(), "foo");
    assert_eq!(g.len(), 2);
    assert_eq!(g.get(1).unwrap().name(), "foo2");
    assert!(g.insert(9, mapper("n", "", &[])).is_none());
    assert_eq!(g.len(), 3);
}

#[test]
fn remove_takes_module_out() {
    let mut g = foo_bar_graph();
    assert_eq!(g.remove(1).unwrap().name(), "foo");
    assert_eq!(g.len(), 1);
    assert!(g.get(1).is_none());
    assert!(g.remove(1).is_none());
    // bar now names an input that no longer exists
    assert!(g.generate().is_err());
}

#[test]
fn rename_keeps_identity() {
    let mut g = foo_bar_graph();
    assert!(g.rename(1, "renamed".to_string()));
    assert_eq!(g.get(1).unwrap().name(), "renamed");
    assert_eq!(*g.get(1).unwrap().inputs(), vec!["BLOCK".to_string()]);
    assert!(!g.rename(42, "x".to_string()));
    assert!(g.generate().is_err());
}

#[test]
fn accessors_edit_in_place() {
    let mut g = foo_bar_graph();
    let m = g.module_at_mut(0);
    m.code_mut().push_str(" // edited");
    *m.editing_mut() = true;
    m.inputs_mut().push("bar".to_string());
    let m = g.get(1).unwrap();
    assert_eq!(m.code(), "fn foo(BLOCK) { BLOCK.number } // edited");
    assert!(*m.editing());
    assert_eq!(m.inputs().len(), 2);
    assert_eq!(m.name(), "foo");
}

#[test]
fn default_modules() {
    let g = Module::build_default_modules();
    assert_eq!(g.len(), 2);
    let entries = g.entries();
    assert_eq!(entries[0].1.name(), "foo");
    assert_eq!(entries[1].1.name(), "test_store");
    assert_ne!(entries[0].0, entries[1].0);
    let text = g.generate().ok().unwrap();
    assert!(text.contains("add_sfn(#{\n    name: \"test_store\",\n    inputs: [#{kind: \"map\", name: \"foo\"}]"));
}

#[test]
fn template_modules() {
    let m = Module::template_mapper();
    assert_eq!(m.name(), "template_mfn");
    assert_eq!(m.code(), "fn template_mfn(BLOCK) { block.number }");
    let s = Module::template_store();
    assert_eq!(s.name(), "template_sfn");
    assert_eq!(*s.inputs(), vec!["test_map".to_string()]);
}

#[test]
fn default_modules_under_given_identities() {
    let g = Module::default_modules_with_ids(10, 20);
    assert_eq!(g.len(), 2);
    assert_eq!(g.entries()[0].0, 10);
    assert_eq!(g.entries()[1].0, 20);
    assert!(g.generate().is_ok());
    let g = Module::default_modules_with_ids(7, 7);
    assert_eq!(g.len(), 1);
    assert_eq!(g.entries()[0].1.name(), "test_store");
    match g.generate() {
        Err(e) => {
            assert_eq!(e.module, "test_store");
            assert_eq!(e.input, "foo");
        }
        Ok(_) => panic!("foo is missing"),
    }
}

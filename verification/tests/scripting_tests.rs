use kagibako::scripting::{hook_name, hook_script, ScriptEvent};
use std::sync::{Arc, Mutex};

#[test]
fn hook_names_and_scripts() {
    assert_eq!(hook_name(&ScriptEvent::OnStart), "on_startup");
    assert_eq!(hook_name(&ScriptEvent::OnQuit), "on_shutdown");
    assert_eq!(hook_name(&ScriptEvent::OnKey("j".into())), "on_key");
    assert_eq!(hook_script(&ScriptEvent::OnStart), "if is_def_fn(\"on_startup\", 0) { on_startup(); }");
    assert_eq!(hook_script(&ScriptEvent::OnQuit), "if is_def_fn(\"on_shutdown\", 0) { on_shutdown(); }");
    assert_eq!(
        hook_script(&ScriptEvent::OnKey("j".into())),
        "if is_def_fn(\"on_key\", 1) { on_key(\"j\"); }"
    );
}

#[test]
fn key_hook_escapes_the_key() {
    assert_eq!(
        hook_script(&ScriptEvent::OnKey("\"".into())),
        "if is_def_fn(\"on_key\", 1) { on_key(\"\\\"\"); }"
    );
    assert_eq!(
        hook_script(&ScriptEvent::OnKey("a\\b\n\r".into())),
        "if is_def_fn(\"on_key\", 1) { on_key(\"a\\\\b\\n\\r\"); }"
    );
    assert_eq!(
        hook_script(&ScriptEvent::OnKey("\"); evil(); (\"".into())),
        "if is_def_fn(\"on_key\", 1) { on_key(\"\\\"); evil(); (\\\"\"); }"
    );
}

fn run_key_hook(key: &str) -> Vec<String> {
    let seen = Arc::new(Mutex::new(Vec::<String>::new()));
    let mut engine = soushi::ScriptEngine::new();
    let s = Arc::clone(&seen);
    engine.register_fn("record", move |k: &str| {
        s.lock().unwrap().push(k.to_string());
    });
    let script = format!("fn on_key(k) {{ record(k); }}\n{}", hook_script(&ScriptEvent::OnKey(key.into())));
    let _ = engine.eval(&script);
    let out = seen.lock().unwrap().clone();
    out
}

#[test]
fn key_hook_receives_key_verbatim() {
    for key in ["j", "\"", "\\", "a\"b\\c", "\"); record(\"x", "line\nbreak", "cr\r"] {
        assert_eq!(run_key_hook(key), vec![key.to_string()]);
    }
}

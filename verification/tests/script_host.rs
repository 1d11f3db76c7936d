use std::sync::Arc;
use std::sync::Mutex;

use ui_bridge::engine::frame_entry_name;
use ui_bridge::engine::FrameOutcome;
use ui_bridge::engine::ScriptHost;
use ui_bridge::registry::Registry;
use ui_bridge::registry::Widget;
use ui_bridge::render::render_widget;
use ui_bridge::render::WidgetInput;

#[test]
fn fresh_host_is_unloaded() {
    let host = ScriptHost::new();
    assert!(!host.loaded);
    assert!(host.last_error.is_none());
}

#[test]
fn successful_load_marks_loaded() {
    let mut host = ScriptHost::new();
    assert!(host.load_source("x = 1"));
    assert!(host.loaded);
    assert!(host.last_error.is_none());
}

#[test]
fn failed_load_records_error_and_keeps_state() {
    let mut host = ScriptHost::new();
    assert!(!host.load_source("this is not a script (("));
    assert!(!host.loaded);
    assert!(host.last_error.is_some());

    // A load error after a successful load leaves the engine loaded and
    // usable, with the error recorded.
    assert!(host.load_source("y = 2"));
    assert!(!host.load_source("another bad ((("));
    assert!(host.loaded);
    assert!(host.last_error.is_some());
    assert!(host.load_source("z = y + 1"));
    assert!(host.last_error.is_none());
}

#[test]
fn runtime_error_during_load_is_reported() {
    let mut host = ScriptHost::new();
    assert!(!host.load_source("error('exploded at top level')"));
    let msg = host.last_error.clone().unwrap();
    assert!(msg.contains("exploded at top level"));
}

#[test]
fn missing_frame_entry_is_not_an_error() {
    let mut host = ScriptHost::new();
    assert!(host.load_source("x = 1"));
    let out = host.run_frame_entry(frame_entry_name());
    assert!(matches!(out, FrameOutcome::Missing));
    assert!(host.loaded);
    assert!(host.last_error.is_none());
}

#[test]
fn present_frame_entry_runs() {
    let mut host = ScriptHost::new();
    assert!(host.load_source("ticks = 0\nfunction on_draw() ticks = ticks + 1 end"));
    let out = host.run_frame_entry(frame_entry_name());
    assert!(matches!(out, FrameOutcome::Ran));
    // The entry point really ran: the script observed the call.
    assert!(host.load_source("assert(ticks == 1)"));
}

#[test]
fn failing_frame_entry_is_recorded_and_engine_stays_usable() {
    let mut host = ScriptHost::new();
    assert!(host.load_source("function on_draw() error('frame failed') end"));
    let out = host.run_frame_entry(frame_entry_name());
    match out {
        FrameOutcome::Failed(msg) => assert!(msg.contains("frame failed")),
        _ => panic!("expected the entry point to fail"),
    }
    assert!(host.loaded);
    assert!(host.last_error.is_some());
    // The engine remains usable after a script error.
    assert!(host.load_source("x = 1"));
}

#[test]
fn non_function_global_counts_as_missing() {
    let mut host = ScriptHost::new();
    assert!(host.load_source("on_draw = 42"));
    let out = host.run_frame_entry(frame_entry_name());
    assert!(matches!(out, FrameOutcome::Missing));
}

#[test]
fn reserved_entry_point_name() {
    assert_eq!(frame_entry_name(), "on_draw");
}

#[test]
fn script_declarations_reach_registry_in_call_order() {
    let mut host = ScriptHost::new();
    let shared = Arc::new(Mutex::new(Registry::new()));

    let s = shared.clone();
    let ui_label = host
        .engine
        .create_function(move |_, text: String| {
            s.lock().unwrap().label(text);
            Ok(())
        })
        .unwrap();
    host.engine.globals().set("ui_label", ui_label).unwrap();

    let s = shared.clone();
    let ui_separator = host
        .engine
        .create_function(move |_, _: ()| {
            s.lock().unwrap().separator();
            Ok(())
        })
        .unwrap();
    host.engine.globals().set("ui_separator", ui_separator).unwrap();

    assert!(host.load_source("ui_label('first')\nui_separator()\nui_label('last')"));
    let reg = shared.lock().unwrap();
    assert_eq!(reg.len(), 3);
    assert!(matches!(&reg.widgets[0], Widget::Label { text } if text == "first"));
    assert!(matches!(&reg.widgets[1], Widget::Separator));
    assert!(matches!(&reg.widgets[2], Widget::Label { text } if text == "last"));
}

#[test]
fn script_callback_error_reaches_host_and_frame_goes_on() {
    let mut host = ScriptHost::new();
    let shared = Arc::new(Mutex::new(Registry::new()));
    let callbacks: Arc<Mutex<Vec<mlua::Function>>> = Arc::new(Mutex::new(Vec::new()));

    let s = shared.clone();
    let cb = callbacks.clone();
    let ui_button = host
        .engine
        .create_function(move |_, (label, callback): (String, mlua::Function)| {
            let mut c = cb.lock().unwrap();
            let id = c.len() as u64;
            c.push(callback);
            s.lock().unwrap().button(label, id);
            Ok(())
        })
        .unwrap();
    host.engine.globals().set("ui_button", ui_button).unwrap();

    let s = shared.clone();
    let ui_label = host
        .engine
        .create_function(move |_, text: String| {
            s.lock().unwrap().label(text);
            Ok(())
        })
        .unwrap();
    host.engine.globals().set("ui_label", ui_label).unwrap();

    assert!(host.load_source(
        "ui_button('boom', function() error('from the script') end)\nui_label('after')"
    ));

    let mut reg = shared.lock().unwrap();
    assert_eq!(reg.len(), 2);
    let step = render_widget(&mut reg, 0, &WidgetInput::Click);
    let id = step.callback.expect("a clicked button demands its callback");
    let callback = callbacks.lock().unwrap()[id as usize].clone();
    let err = callback.call::<()>(()).expect_err("the script callback raises");
    assert!(err.to_string().contains("from the script"));
    // The error is the driver's to report; the walk renders the next widget.
    let step = render_widget(&mut reg, 1, &WidgetInput::Idle);
    assert!(step.callback.is_none());
}

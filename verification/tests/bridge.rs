use ui_bridge::registry::CheckBoxOutput;
use ui_bridge::registry::Registry;
use ui_bridge::registry::TextEditOutput;
use ui_bridge::registry::Widget;
use ui_bridge::render::render_pass;
use ui_bridge::render::FrameWalk;
use ui_bridge::render::render_widget;
use ui_bridge::render::DrawCommand;
use ui_bridge::render::WidgetInput;

#[test]
fn declarations_append_in_call_order() {
    let mut reg = Registry::new();
    assert_eq!(reg.len(), 0);
    reg.label(String::from("first"));
    let text: TextEditOutput = reg.text_input();
    reg.button(String::from("go"), 7);
    reg.separator();
    let check: CheckBoxOutput = reg.checkbox(String::from("ok"));
    assert_eq!(reg.len(), 5);
    assert!(matches!(&reg.widgets[0], Widget::Label { text } if text == "first"));
    assert!(matches!(&reg.widgets[1], Widget::TextInput { cell } if *cell == text.cell));
    assert!(
        matches!(&reg.widgets[2], Widget::Button { label, callback } if label == "go" && *callback == 7)
    );
    assert!(matches!(&reg.widgets[3], Widget::Separator));
    assert!(matches!(&reg.widgets[4], Widget::Checkbox { label, cell } if label == "ok" && *cell == check.cell));
}

#[test]
fn two_equal_labels_are_two_widgets() {
    let mut reg = Registry::new();
    reg.label(String::from("x"));
    reg.label(String::from("x"));
    assert_eq!(reg.len(), 2);
}

#[test]
fn text_edit_reaches_handle_same_frame() {
    let mut reg = Registry::new();
    let handle = reg.text_input();
    assert_eq!(handle.get_text(&reg), "");
    let step = render_widget(&mut reg, 0, &WidgetInput::EditText(String::from("hello")));
    assert!(matches!(&step.command, DrawCommand::TextField { text } if text == "hello"));
    assert!(step.callback.is_none());
    assert_eq!(handle.get_text(&reg), "hello");
}

#[test]
fn text_edit_overwrites_previous_value() {
    let mut reg = Registry::new();
    let handle = reg.text_input();
    render_widget(&mut reg, 0, &WidgetInput::EditText(String::from("one")));
    render_widget(&mut reg, 0, &WidgetInput::EditText(String::from("two")));
    assert_eq!(handle.get_text(&reg), "two");
}

#[test]
fn checkbox_false_until_toggled_then_cycles() {
    let mut reg = Registry::new();
    let handle = reg.checkbox(String::from("ok"));
    assert!(!handle.is_checked(&reg));
    render_widget(&mut reg, 0, &WidgetInput::Idle);
    assert!(!handle.is_checked(&reg));
    render_widget(&mut reg, 0, &WidgetInput::Toggle);
    assert!(handle.is_checked(&reg));
    render_widget(&mut reg, 0, &WidgetInput::Toggle);
    assert!(!handle.is_checked(&reg));
}

#[test]
fn failed_callback_does_not_stop_later_widgets() {
    let mut reg = Registry::new();
    reg.button(String::from("boom"), 99);
    reg.label(String::from("after"));
    let check = reg.checkbox(String::from("later"));

    // The driver walks the registry itself, invoking each clicked button's
    // callback between steps.  The first widget's callback fails; the walk
    // goes on and every later widget still renders.
    let inputs = [WidgetInput::Click, WidgetInput::Idle, WidgetInput::Toggle];
    let mut drawn = Vec::new();
    let mut errors: Vec<String> = Vec::new();
    for (i, input) in inputs.iter().enumerate() {
        let step = render_widget(&mut reg, i, input);
        drawn.push(step.command);
        if let Some(id) = step.callback {
            assert_eq!(id, 99);
            errors.push(String::from("callback raised"));
        }
    }
    assert_eq!(errors.len(), 1);
    assert_eq!(drawn.len(), 3);
    assert!(matches!(&drawn[1], DrawCommand::Label { text } if text == "after"));
    assert!(matches!(&drawn[2], DrawCommand::Checkbox { checked: true, .. }));
    assert!(check.is_checked(&reg));
}

#[test]
fn frame_walk_continues_past_reported_error() {
    let mut reg = Registry::new();
    reg.button(String::from("boom"), 0);
    let handle = reg.text_input();

    let mut walk = FrameWalk::begin();
    assert!(!walk.done(&reg));
    let step = walk.step(&mut reg, &WidgetInput::Click);
    assert_eq!(step.callback, Some(0));
    // The driver invoked the callback and it raised: report and walk on.
    walk.report_callback_error(String::from("callback raised"));
    assert!(!walk.done(&reg));
    let step = walk.step(&mut reg, &WidgetInput::EditText(String::from("still here")));
    assert!(matches!(&step.command, DrawCommand::TextField { text } if text == "still here"));
    assert!(walk.done(&reg));
    assert_eq!(walk.errors.len(), 1);
    assert_eq!(handle.get_text(&reg), "still here");
}

#[test]
fn clear_empties_widget_list_and_keeps_cells() {
    let mut reg = Registry::new();
    reg.label(String::from("a"));
    let handle = reg.text_input();
    render_widget(&mut reg, 1, &WidgetInput::EditText(String::from("kept")));
    assert_eq!(reg.len(), 2);
    reg.clear();
    assert_eq!(reg.len(), 0);
    // An empty reload declares nothing: the registry stays at zero widgets,
    // not at the pre-reload count.
    assert_eq!(reg.len(), 0);
    // A handle the script still holds goes on reading its cell.
    assert_eq!(handle.get_text(&reg), "kept");
}

#[test]
fn reload_replaces_widgets_instead_of_accumulating() {
    let mut reg = Registry::new();
    reg.label(String::from("old"));
    reg.separator();
    reg.clear();
    reg.label(String::from("new"));
    assert_eq!(reg.len(), 1);
    assert!(matches!(&reg.widgets[0], Widget::Label { text } if text == "new"));
}

#[test]
fn label_and_checkbox_render_scenario() {
    let mut reg = Registry::new();
    reg.label(String::from("hi"));
    let handle = reg.checkbox(String::from("ok"));
    assert_eq!(reg.len(), 2);

    let inputs = vec![WidgetInput::Idle, WidgetInput::Idle];
    let steps = render_pass(&mut reg, &inputs);
    assert_eq!(steps.len(), 2);
    // The label renders its static text; it has no shared cell to consult.
    assert!(matches!(&steps[0].command, DrawCommand::Label { text } if text == "hi"));
    assert!(matches!(
        &steps[1].command,
        DrawCommand::Checkbox { label, checked: false } if label == "ok"
    ));
    assert!(!handle.is_checked(&reg));

    let inputs = vec![WidgetInput::Idle, WidgetInput::Toggle];
    let steps = render_pass(&mut reg, &inputs);
    assert!(matches!(&steps[1].command, DrawCommand::Checkbox { checked: true, .. }));
    assert!(handle.is_checked(&reg));
}

#[test]
fn render_pass_yields_one_step_per_widget() {
    let mut reg = Registry::new();
    reg.label(String::from("a"));
    reg.separator();
    reg.button(String::from("b"), 3);
    let inputs = vec![WidgetInput::Idle, WidgetInput::Idle, WidgetInput::Click];
    let steps = render_pass(&mut reg, &inputs);
    assert_eq!(steps.len(), 3);
    assert!(steps[0].callback.is_none());
    assert!(steps[1].callback.is_none());
    assert_eq!(steps[2].callback, Some(3));
}

#[test]
fn direct_cell_writes_follow_contract() {
    let mut reg = Registry::new();
    let text = reg.text_input();
    let check = reg.checkbox(String::from("c"));
    reg.write_text_cell(text.cell, String::from("typed"));
    assert_eq!(text.get_text(&reg), "typed");
    reg.toggle_bool_cell(check.cell);
    assert!(check.is_checked(&reg));
    reg.toggle_bool_cell(check.cell);
    assert!(!check.is_checked(&reg));
}

#[test]
fn each_text_input_owns_its_own_cell() {
    let mut reg = Registry::new();
    let first = reg.text_input();
    let second = reg.text_input();
    render_widget(&mut reg, 0, &WidgetInput::EditText(String::from("one")));
    render_widget(&mut reg, 1, &WidgetInput::EditText(String::from("two")));
    assert_eq!(first.get_text(&reg), "one");
    assert_eq!(second.get_text(&reg), "two");
}

use glyph_editor::document::{Color, Glyph, Guideline, Layer, LayerOperation};
use glyph_editor::editor::{Editor, InputPrompt, LayerEdit, ModificationScope, PromptAnswer, ToolEnum};
use glyph_editor::events::{EditorEvent, Modifiers, MouseButton, MouseEventType, MouseInfo, Point};
use glyph_editor::tool_behaviors::{MoveGuideline, ToolBehavior};

fn mouse(button: MouseButton, x: i64, y: i64) -> MouseInfo {
    let modifiers = Modifiers { shift: false, ctrl: false, alt: false, meta: false };
    MouseInfo::new(button, Point { x, y }, true, modifiers)
}

fn moved(x: i64, y: i64) -> EditorEvent {
    EditorEvent::MouseEvent { event_type: MouseEventType::Moved, mouse_info: mouse(MouseButton::Left, x, y) }
}

fn released(button: MouseButton) -> EditorEvent {
    EditorEvent::MouseEvent { event_type: MouseEventType::Released, mouse_info: mouse(button, 0, 0) }
}

fn grey() -> Color {
    Color { r: 1, g: 2, b: 3, a: 4 }
}

/// An editor on a glyph of `layers` layers, the first holding guidelines at
/// (10, 10) and (50, -20).
fn editor_with_guidelines(layers: usize) -> Editor {
    let mut glyph = Glyph::new("a".to_string());
    for i in 0..layers {
        let mut layer = Layer::new(format!("Layer {}", i), grey());
        if i == 0 {
            layer.guidelines.push(Guideline::new("g0".to_string(), Point { x: 10, y: 10 }, 0));
            layer.guidelines.push(Guideline::new("g1".to_string(), Point { x: 50, y: -20 }, 90));
        }
        glyph.layers.push(layer);
    }
    Editor::new(glyph, ToolEnum::Select)
}

fn guideline_at(v: &Editor, idx: usize) -> Point {
    v.glyph.layers[v.active_layer].guidelines[idx].at
}

fn start_drag(v: &mut Editor, idx: usize, x: i64, y: i64) {
    let mg = MoveGuideline::new(idx, mouse(MouseButton::Left, x, y));
    v.push_behavior(ToolBehavior::MoveGuideline(mg));
}

#[test]
fn scenario_guideline_drag() {
    let mut v = editor_with_guidelines(1);
    start_drag(&mut v, 0, 100, 100);
    v.dispatch_editor_event(moved(94, 100));
    assert_eq!(guideline_at(&v, 0), Point { x: 4, y: 10 });
    v.dispatch_editor_event(moved(94, 94));
    assert_eq!(guideline_at(&v, 0), Point { x: 4, y: 16 });
    assert!(v.is_modifying());
    v.dispatch_editor_event(released(MouseButton::Left));
    assert!(!v.is_modifying());
    assert!(v.tool_behaviors.is_empty());
    assert_eq!(v.undo_stack.len(), 1);
    assert_eq!(guideline_at(&v, 0), Point { x: 4, y: 16 });
}

#[test]
fn drag_does_not_depend_on_granularity() {
    let mut one = editor_with_guidelines(1);
    start_drag(&mut one, 0, 100, 100);
    one.dispatch_editor_event(moved(94, 94));

    let mut two = editor_with_guidelines(1);
    start_drag(&mut two, 0, 100, 100);
    two.dispatch_editor_event(moved(97, 97));
    two.dispatch_editor_event(moved(94, 94));

    assert_eq!(guideline_at(&one, 0), guideline_at(&two, 0));
    assert_eq!(guideline_at(&one, 0), Point { x: 4, y: 16 });
    assert_eq!(one.tool_behaviors, two.tool_behaviors);
}

#[test]
fn drag_mirrors_horizontal_and_inverts_vertical_delta() {
    let mut v = editor_with_guidelines(1);
    start_drag(&mut v, 1, 0, 0);
    v.dispatch_editor_event(moved(5, -7));
    assert_eq!(guideline_at(&v, 1), Point { x: 55, y: -13 });
    assert_eq!(guideline_at(&v, 0), Point { x: 10, y: 10 });
}

#[test]
fn drag_opens_and_closes_one_transaction() {
    let mut v = editor_with_guidelines(1);
    start_drag(&mut v, 0, 0, 0);
    for i in 1..6 {
        v.dispatch_editor_event(moved(i, 2 * i));
        assert!(v.is_modifying());
        assert_eq!(v.undo_stack.len(), 0);
    }
    v.dispatch_editor_event(released(MouseButton::Left));
    assert!(!v.is_modifying());
    assert_eq!(v.undo_stack.len(), 1);
    assert_eq!(v.undo_stack[0].label, "Move guideline.");
    assert_eq!(v.undo_stack[0].scope, ModificationScope::Glyph);
    assert_eq!(v.undo_stack[0].glyph.layers[0].guidelines[0].at, Point { x: 10, y: 10 });
}

#[test]
fn release_of_other_button_keeps_gesture() {
    let mut v = editor_with_guidelines(1);
    start_drag(&mut v, 0, 0, 0);
    v.dispatch_editor_event(moved(1, 1));
    v.dispatch_editor_event(released(MouseButton::Right));
    assert!(v.is_modifying());
    assert_eq!(v.tool_behaviors.len(), 1);
    assert_eq!(v.undo_stack.len(), 0);
}

#[test]
fn release_of_matching_button_pops_one_behavior() {
    let mut v = editor_with_guidelines(1);
    start_drag(&mut v, 1, 0, 0);
    start_drag(&mut v, 0, 0, 0);
    v.dispatch_editor_event(moved(1, 1));
    v.dispatch_editor_event(released(MouseButton::Left));
    assert!(!v.is_modifying());
    assert_eq!(v.tool_behaviors.len(), 1);
    assert_eq!(v.tool_behaviors[0], ToolBehavior::MoveGuideline(MoveGuideline::new(1, mouse(MouseButton::Left, 0, 0))));
}

#[test]
fn pushed_behavior_receives_events_until_it_pops() {
    let mut v = editor_with_guidelines(1);
    start_drag(&mut v, 1, 0, 0);
    start_drag(&mut v, 0, 0, 0);
    v.dispatch_editor_event(moved(2, 2));
    assert_eq!(guideline_at(&v, 0), Point { x: 12, y: 8 });
    assert_eq!(guideline_at(&v, 1), Point { x: 50, y: -20 });
    v.dispatch_editor_event(released(MouseButton::Left));
    v.dispatch_editor_event(moved(3, 3));
    assert_eq!(guideline_at(&v, 0), Point { x: 12, y: 8 });
    assert_eq!(guideline_at(&v, 1), Point { x: 53, y: -23 });
    assert_eq!(v.undo_stack.len(), 1);
    assert!(v.is_modifying());
}

#[test]
fn stale_guideline_index_ends_gesture() {
    let mut v = editor_with_guidelines(1);
    start_drag(&mut v, 0, 0, 0);
    v.dispatch_editor_event(moved(1, 1));
    v.glyph.layers[0].guidelines.clear();
    v.dispatch_editor_event(moved(2, 2));
    assert!(!v.is_modifying());
    assert!(v.tool_behaviors.is_empty());
    assert_eq!(v.undo_stack.len(), 1);
}

#[test]
fn stale_guideline_index_without_transaction() {
    let mut v = editor_with_guidelines(1);
    start_drag(&mut v, 7, 0, 0);
    v.dispatch_editor_event(moved(2, 2));
    assert!(!v.is_modifying());
    assert!(v.tool_behaviors.is_empty());
    assert_eq!(v.undo_stack.len(), 0);
}

#[test]
fn unhandled_events_are_ignored() {
    let mut v = editor_with_guidelines(1);
    start_drag(&mut v, 0, 0, 0);
    v.dispatch_editor_event(EditorEvent::KeyEvent { key: 27, pressed: true });
    v.dispatch_editor_event(EditorEvent::Ui);
    v.dispatch_editor_event(EditorEvent::MouseEvent {
        event_type: MouseEventType::Pressed,
        mouse_info: mouse(MouseButton::Left, 40, 40),
    });
    assert!(!v.is_modifying());
    assert_eq!(guideline_at(&v, 0), Point { x: 10, y: 10 });
    assert_eq!(v.tool_behaviors.len(), 1);
}

#[test]
fn pending_prompt_takes_events_first() {
    let mut v = editor_with_guidelines(1);
    start_drag(&mut v, 0, 0, 0);
    v.push_prompt(InputPrompt::Text { label: "Layer name:".to_string(), default: "Layer 0".to_string(), layer: 0 });
    v.dispatch_editor_event(moved(5, 5));
    assert!(!v.is_modifying());
    assert_eq!(guideline_at(&v, 0), Point { x: 10, y: 10 });
}

#[test]
fn answering_prompt_renames_layer() {
    let mut v = editor_with_guidelines(2);
    v.push_prompt(InputPrompt::Text { label: "Layer name:".to_string(), default: "Layer 1".to_string(), layer: 1 });
    assert!(!v.answer_prompt(PromptAnswer::Color(grey())));
    assert_eq!(v.prompts.len(), 1);
    assert!(v.answer_prompt(PromptAnswer::Text("Outline".to_string())));
    assert!(v.prompts.is_empty());
    assert_eq!(v.glyph.layers[1].name, "Outline");
    assert_eq!(v.active_layer, 0);
    assert_eq!(v.undo_stack.len(), 1);
    assert_eq!(v.undo_stack[0].label, "Renamed layer.");
    assert!(!v.answer_prompt(PromptAnswer::Text("x".to_string())));
}

#[test]
fn answering_color_prompt_recolors_layer() {
    let mut v = editor_with_guidelines(2);
    let red = Color { r: 0x3f80_0000, g: 0, b: 0, a: 0x3f80_0000 };
    v.push_prompt(InputPrompt::Color { label: "Layer color:".to_string(), default: grey(), layer: 1 });
    assert!(v.answer_prompt(PromptAnswer::Color(red)));
    assert_eq!(v.glyph.layers[1].color, red);
    assert_eq!(v.glyph.layers[0].color, grey());
}

#[test]
fn layer_modification_selects_and_restores() {
    let mut v = editor_with_guidelines(3);
    assert!(v.set_active_layer(2));
    v.begin_layer_modification("Toggled layer visibility.", 0);
    assert_eq!(v.get_active_layer(), 0);
    v.edit_active_layer(LayerEdit::ToggleVisibility);
    v.end_layer_modification();
    assert_eq!(v.get_active_layer(), 2);
    assert!(!v.glyph.layers[0].visible);
    assert!(v.glyph.layers[2].visible);
    assert_eq!(v.undo_stack[0].scope, ModificationScope::Layer { layer: 0, restore: 2 });
}

#[test]
fn modify_layer_sets_operation() {
    let mut v = editor_with_guidelines(2);
    v.modify_layer(1, "Changed layer operation.", LayerEdit::SetOperation(Some(LayerOperation::Difference)));
    assert_eq!(v.glyph.layers[1].operation, Some(LayerOperation::Difference));
    assert_eq!(v.glyph.layers[0].operation, None);
    assert_eq!(v.get_active_layer(), 0);
    assert!(!v.is_modifying());
}

#[test]
fn undo_and_redo_a_drag() {
    let mut v = editor_with_guidelines(1);
    start_drag(&mut v, 0, 0, 0);
    v.dispatch_editor_event(moved(3, 4));
    assert!(!v.undo());
    v.dispatch_editor_event(released(MouseButton::Left));
    assert_eq!(guideline_at(&v, 0), Point { x: 13, y: 6 });
    assert!(v.undo());
    assert_eq!(guideline_at(&v, 0), Point { x: 10, y: 10 });
    assert!(!v.undo());
    assert!(v.redo());
    assert_eq!(guideline_at(&v, 0), Point { x: 13, y: 6 });
    assert!(!v.redo());
}

#[test]
fn new_layer_is_appended_and_selected() {
    let mut v = editor_with_guidelines(1);
    assert!(v.new_layer());
    assert_eq!(v.get_layer_count(), 2);
    assert_eq!(v.get_active_layer(), 1);
    assert_eq!(v.glyph.layers[1].name, "New layer");
    assert!(v.glyph.layers[1].visible);
    assert!(v.undo());
    assert_eq!(v.get_layer_count(), 1);
    assert_eq!(v.get_active_layer(), 0);
}

#[test]
fn delete_layer_refusals_and_clamping() {
    let mut v = editor_with_guidelines(1);
    assert!(!v.delete_layer(0));
    let mut v = editor_with_guidelines(3);
    assert!(!v.delete_layer(3));
    assert!(v.set_active_layer(2));
    assert!(v.delete_layer(2));
    assert_eq!(v.get_layer_count(), 2);
    assert_eq!(v.get_active_layer(), 1);
    assert!(v.delete_layer(0));
    assert_eq!(v.get_active_layer(), 0);
    assert_eq!(v.glyph.layers[0].name, "Layer 1");
}

#[test]
fn moving_layers_up_and_down() {
    let mut v = editor_with_guidelines(3);
    assert!(!v.move_active_layer_up());
    assert!(v.move_active_layer_down());
    assert_eq!(v.get_active_layer(), 1);
    assert_eq!(v.glyph.layers[1].name, "Layer 0");
    assert_eq!(v.glyph.layers[0].name, "Layer 1");
    assert!(v.move_active_layer_down());
    assert!(!v.move_active_layer_down());
    assert_eq!(v.glyph.layers[2].name, "Layer 0");
    assert!(v.move_active_layer_up());
    assert_eq!(v.get_active_layer(), 1);
    assert!(v.swap_layers(0, 2));
    assert_eq!(v.glyph.layers[0].name, "Layer 2");
    assert!(!v.swap_layers(0, 3));
}

#[test]
fn structural_edits_refused_during_gesture() {
    let mut v = editor_with_guidelines(2);
    start_drag(&mut v, 0, 0, 0);
    v.dispatch_editor_event(moved(1, 1));
    assert!(!v.new_layer());
    assert!(!v.delete_layer(1));
    assert!(!v.swap_layers(0, 1));
    assert_eq!(v.get_layer_count(), 2);
}

#[test]
fn tool_and_active_layer_selection() {
    let mut v = editor_with_guidelines(2);
    assert_eq!(v.get_tool(), ToolEnum::Select);
    v.set_tool(ToolEnum::Pen);
    assert_eq!(v.get_tool(), ToolEnum::Pen);
    assert!(!v.set_active_layer(2));
    assert_eq!(v.get_active_layer(), 0);
    assert!(v.pop_behavior().is_none());
}

#[test]
fn duplicate_glyph_is_independent() {
    let v = editor_with_guidelines(2);
    let mut copy = v.glyph.duplicate();
    assert_eq!(copy.layers.len(), 2);
    assert_eq!(copy.layers[0].guidelines[1].at, Point { x: 50, y: -20 });
    copy.layers[0].guidelines[1].at = Point { x: 0, y: 0 };
    assert_eq!(v.glyph.layers[0].guidelines[1].at, Point { x: 50, y: -20 });
}

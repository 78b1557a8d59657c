use param_slider::interaction::{
    pointer_shape, CursorPosition, DragStart, ModifierKeys, ParamAction, PointerEvent,
    PointerShape, SliderInteraction, ValueSource,
};
use param_slider::style::{RotaryStyle, SliderStyle, ValueAxis};

fn pos(x: f32, y: f32) -> CursorPosition {
    CursorPosition { x: x.to_bits(), y: y.to_bits() }
}

fn press(p: Option<CursorPosition>, double_click: bool) -> PointerEvent {
    PointerEvent::Pressed { position: p, double_click, display_value: String::from("-3.0 dB") }
}

fn mods(shift: bool, alt: bool, command: bool) -> ModifierKeys {
    ModifierKeys { shift, alt, command }
}

fn with_modifiers(s: &mut SliderInteraction, style: SliderStyle, m: ModifierKeys) {
    let actions = s.handle_pointer_event(
        style,
        PointerEvent::ModifiersChanged { modifiers: m, position: None },
        0.5f32.to_bits(),
    );
    assert!(actions.is_empty());
}

const HALF: u32 = 0x3f00_0000;

#[test]
fn default_style_is_horizontal() {
    assert_eq!(SliderStyle::default(), SliderStyle::Horizontal);
}

#[test]
fn value_axis_per_style() {
    assert_eq!(SliderStyle::Horizontal.value_axis(), ValueAxis::Horizontal);
    assert_eq!(SliderStyle::Vertical.value_axis(), ValueAxis::VerticalInverted);
    assert_eq!(
        SliderStyle::Rotary(RotaryStyle::Width).value_axis(),
        ValueAxis::VerticalInverted
    );
    let p = pos(3.0, 7.0);
    assert_eq!(SliderStyle::Horizontal.drag_coordinate(p), 3.0f32.to_bits());
    assert_eq!(SliderStyle::Vertical.drag_coordinate(p), 7.0f32.to_bits());
    assert_eq!(SliderStyle::Rotary(RotaryStyle::Bipolar).drag_coordinate(p), 7.0f32.to_bits());
    assert!(SliderStyle::Rotary(RotaryStyle::BipolarFullCircle { start_from_top: true }).is_rotary());
    assert!(!SliderStyle::Vertical.is_rotary());
}

#[test]
fn fresh_interaction_is_idle() {
    let s = SliderInteraction::default();
    assert!(!s.drag_active());
    assert_eq!(s.granular_drag_start(), None);
    assert_eq!(s.text_input_value(), None);
    assert_eq!(s.modifiers(), mods(false, false, false));
    assert!(!s.is_highlighted(false));
    assert!(s.is_highlighted(true));
}

#[test]
fn pointer_shape_over_slider() {
    assert_eq!(pointer_shape(true), PointerShape::Pointer);
    assert_eq!(pointer_shape(false), PointerShape::Idle);
}

#[test]
fn click_and_drag_horizontal_slider() {
    let mut s = SliderInteraction::default();
    let style = SliderStyle::Horizontal;
    let p = pos(10.0, 5.0);
    let actions = s.handle_pointer_event(style, press(Some(p), false), HALF);
    assert_eq!(
        actions,
        vec![
            ParamAction::BeginSetParameter,
            ParamAction::SetNormalized(ValueSource::Cursor(p)),
        ]
    );
    assert!(s.drag_active());
    assert!(s.is_highlighted(false));
    assert_eq!(s.granular_drag_start(), None);

    let q = pos(20.0, 6.0);
    let actions = s.handle_pointer_event(style, PointerEvent::Moved { position: Some(q) }, HALF);
    assert_eq!(actions, vec![ParamAction::SetNormalized(ValueSource::Cursor(q))]);

    let actions = s.handle_pointer_event(style, PointerEvent::Moved { position: None }, HALF);
    assert!(actions.is_empty());

    let actions = s.handle_pointer_event(style, PointerEvent::Released, HALF);
    assert_eq!(actions, vec![ParamAction::EndSetParameter]);
    assert!(!s.drag_active());

    // A second release ends nothing.
    let actions = s.handle_pointer_event(style, PointerEvent::Released, HALF);
    assert!(actions.is_empty());
}

#[test]
fn press_outside_does_nothing() {
    let mut s = SliderInteraction::default();
    let actions = s.handle_pointer_event(SliderStyle::Horizontal, press(None, true), HALF);
    assert!(actions.is_empty());
    assert!(!s.drag_active());
}

#[test]
fn moves_without_drag_are_ignored() {
    let mut s = SliderInteraction::default();
    let actions = s.handle_pointer_event(
        SliderStyle::Vertical,
        PointerEvent::Moved { position: Some(pos(1.0, 2.0)) },
        HALF,
    );
    assert!(actions.is_empty());
    assert!(!s.drag_active());
    let actions = s.handle_pointer_event(SliderStyle::Vertical, PointerEvent::Other, HALF);
    assert!(actions.is_empty());
}

#[test]
fn double_click_resets_to_default() {
    let mut s = SliderInteraction::default();
    let actions =
        s.handle_pointer_event(SliderStyle::Horizontal, press(Some(pos(1.0, 1.0)), true), HALF);
    assert_eq!(
        actions,
        vec![
            ParamAction::BeginSetParameter,
            ParamAction::SetNormalized(ValueSource::Default),
            ParamAction::EndSetParameter,
        ]
    );
    assert!(!s.drag_active());
    // No drag follows a reset.
    let actions = s.handle_pointer_event(
        SliderStyle::Horizontal,
        PointerEvent::Moved { position: Some(pos(9.0, 1.0)) },
        HALF,
    );
    assert!(actions.is_empty());
}

#[test]
fn command_click_resets_to_default() {
    let mut s = SliderInteraction::default();
    let style = SliderStyle::Rotary(RotaryStyle::Unipolar);
    with_modifiers(&mut s, style, mods(true, false, true));
    assert_eq!(s.modifiers(), mods(true, false, true));
    let actions = s.handle_pointer_event(style, press(Some(pos(1.0, 1.0)), false), HALF);
    assert_eq!(
        actions,
        vec![
            ParamAction::BeginSetParameter,
            ParamAction::SetNormalized(ValueSource::Default),
            ParamAction::EndSetParameter,
        ]
    );
    assert!(!s.drag_active());
}

#[test]
fn alt_click_opens_text_entry() {
    let mut s = SliderInteraction::default();
    let style = SliderStyle::Horizontal;
    with_modifiers(&mut s, style, mods(false, true, true));
    let actions = s.handle_pointer_event(style, press(Some(pos(1.0, 1.0)), true), HALF);
    assert_eq!(actions, vec![ParamAction::FocusTextInput]);
    assert!(!s.drag_active());
    assert_eq!(s.text_input_value().map(|t| t.as_str()), Some("-3.0 dB"));
    assert!(s.is_highlighted(false));

    s.text_input_changed(String::from("-6"));
    assert_eq!(s.text_input_value().map(|t| t.as_str()), Some("-6"));

    let entered = 0.25f32.to_bits();
    let actions = s.submit_text_input(Some(entered));
    assert_eq!(
        actions,
        vec![
            ParamAction::BeginSetParameter,
            ParamAction::SetNormalized(ValueSource::Entered(entered)),
            ParamAction::EndSetParameter,
        ]
    );
    assert_eq!(s.text_input_value(), None);
    assert!(!s.drag_active());
}

#[test]
fn unparsable_text_sets_nothing() {
    let mut s = SliderInteraction::default();
    s.text_input_changed(String::from("loud"));
    let actions = s.submit_text_input(None);
    assert!(actions.is_empty());
    assert_eq!(s.text_input_value(), None);
}

#[test]
fn losing_focus_closes_text_entry() {
    let mut s = SliderInteraction::default();
    s.text_input_changed(String::from("1"));
    assert!(s.is_highlighted(false));
    s.close_text_input();
    assert_eq!(s.text_input_value(), None);
    assert!(!s.is_highlighted(false));
}

#[test]
fn shift_drag_is_granular_and_release_of_shift_snaps() {
    let mut s = SliderInteraction::default();
    let style = SliderStyle::Vertical;
    with_modifiers(&mut s, style, mods(true, false, false));
    let p = pos(4.0, 40.0);
    let start_value = 0.3f32.to_bits();
    let actions = s.handle_pointer_event(style, press(Some(p), false), start_value);
    assert_eq!(actions, vec![ParamAction::BeginSetParameter]);
    assert!(s.drag_active());
    assert_eq!(
        s.granular_drag_start(),
        Some(DragStart { coord: 40.0f32.to_bits(), value: start_value })
    );

    let q = pos(4.0, 30.0);
    let actions = s.handle_pointer_event(style, PointerEvent::Moved { position: Some(q) }, HALF);
    assert_eq!(
        actions,
        vec![ParamAction::SetNormalized(ValueSource::Granular {
            start_coord: 40.0f32.to_bits(),
            current_coord: 30.0f32.to_bits(),
            start_value,
        })]
    );

    let r = pos(4.0, 25.0);
    let actions = s.handle_pointer_event(
        style,
        PointerEvent::ModifiersChanged { modifiers: mods(false, false, false), position: Some(r) },
        HALF,
    );
    assert_eq!(actions, vec![ParamAction::SetNormalized(ValueSource::Cursor(r))]);
    assert_eq!(s.granular_drag_start(), None);
    assert!(s.drag_active());

    // Pressing shift again mid-drag starts a new granular drag at the next move.
    with_modifiers(&mut s, style, mods(true, false, false));
    let t = pos(4.0, 20.0);
    let now = 0.6f32.to_bits();
    let actions = s.handle_pointer_event(style, PointerEvent::Moved { position: Some(t) }, now);
    assert_eq!(
        actions,
        vec![ParamAction::SetNormalized(ValueSource::Granular {
            start_coord: 20.0f32.to_bits(),
            current_coord: 20.0f32.to_bits(),
            start_value: now,
        })]
    );
    assert_eq!(s.granular_drag_start(), Some(DragStart { coord: 20.0f32.to_bits(), value: now }));
}

#[test]
fn rotary_drag_is_relative() {
    let mut s = SliderInteraction::default();
    let style = SliderStyle::Rotary(RotaryStyle::Bipolar);
    let p = pos(30.0, 30.0);
    let v = 0.7f32.to_bits();
    let actions = s.handle_pointer_event(style, press(Some(p), false), v);
    assert_eq!(actions, vec![ParamAction::BeginSetParameter]);
    assert_eq!(s.granular_drag_start(), Some(DragStart { coord: 30.0f32.to_bits(), value: v }));

    let q = pos(31.0, 20.0);
    let actions = s.handle_pointer_event(style, PointerEvent::Moved { position: Some(q) }, HALF);
    assert_eq!(
        actions,
        vec![ParamAction::SetNormalized(ValueSource::RotaryDrag {
            start_coord: 30.0f32.to_bits(),
            current_coord: 20.0f32.to_bits(),
            start_value: v,
            fine: false,
        })]
    );

    // Shift restarts the drag from the cursor at the current value, then drags finely.
    let r = pos(31.0, 18.0);
    let now = 0.8f32.to_bits();
    let actions = s.handle_pointer_event(
        style,
        PointerEvent::ModifiersChanged { modifiers: mods(true, false, false), position: Some(r) },
        now,
    );
    assert!(actions.is_empty());
    assert_eq!(s.granular_drag_start(), Some(DragStart { coord: 18.0f32.to_bits(), value: now }));
    let t = pos(31.0, 10.0);
    let actions = s.handle_pointer_event(style, PointerEvent::Moved { position: Some(t) }, HALF);
    assert_eq!(
        actions,
        vec![ParamAction::SetNormalized(ValueSource::RotaryDrag {
            start_coord: 18.0f32.to_bits(),
            current_coord: 10.0f32.to_bits(),
            start_value: now,
            fine: true,
        })]
    );
    let actions = s.handle_pointer_event(style, PointerEvent::Released, HALF);
    assert_eq!(actions, vec![ParamAction::EndSetParameter]);
}

#[test]
fn gestures_stay_bracketed_over_a_session() {
    // Every SetNormalized comes between a Begin and its End, and the count of open gestures
    // matches the drag state.
    let mut s = SliderInteraction::default();
    let style = SliderStyle::Horizontal;
    let mut all = Vec::new();
    all.extend(s.handle_pointer_event(style, press(Some(pos(1.0, 1.0)), false), HALF));
    all.extend(s.handle_pointer_event(style, PointerEvent::Moved { position: Some(pos(2.0, 1.0)) }, HALF));
    all.extend(s.handle_pointer_event(style, PointerEvent::Released, HALF));
    all.extend(s.handle_pointer_event(style, press(Some(pos(3.0, 1.0)), true), HALF));
    all.extend(s.submit_text_input(Some(HALF)));
    let mut open = 0i32;
    for a in &all {
        match a {
            ParamAction::BeginSetParameter => open += 1,
            ParamAction::EndSetParameter => {
                assert!(open >= 1);
                open -= 1
            }
            ParamAction::SetNormalized(_) => assert!(open >= 1),
            ParamAction::FocusTextInput => {}
        }
    }
    assert_eq!(open, if s.drag_active() { 1 } else { 0 });
    assert_eq!(open, 0);
    assert_eq!(all.len(), 10);
}

#[test]
fn second_press_while_dragging_begins_again() {
    // The one input outside the bracketing law: a press while a drag is active begins a
    // second gesture.
    let mut s = SliderInteraction::default();
    let style = SliderStyle::Horizontal;
    let p = pos(1.0, 1.0);
    s.handle_pointer_event(style, press(Some(p), false), HALF);
    let actions = s.handle_pointer_event(style, press(Some(p), false), HALF);
    assert_eq!(
        actions,
        vec![
            ParamAction::BeginSetParameter,
            ParamAction::SetNormalized(ValueSource::Cursor(p)),
        ]
    );
    assert!(s.drag_active());
}

#[test]
fn rotary_drag_keeps_a_start_throughout() {
    let mut s = SliderInteraction::default();
    let style = SliderStyle::Rotary(RotaryStyle::BipolarFullCircle { start_from_top: false });
    s.handle_pointer_event(style, press(Some(pos(5.0, 5.0)), false), HALF);
    assert!(s.granular_drag_start().is_some());
    s.handle_pointer_event(style, PointerEvent::Moved { position: Some(pos(5.0, 1.0)) }, HALF);
    assert!(s.granular_drag_start().is_some());
    // Without a known cursor position the recorded start is kept.
    s.handle_pointer_event(
        style,
        PointerEvent::ModifiersChanged { modifiers: mods(true, false, false), position: None },
        HALF,
    );
    assert_eq!(
        s.granular_drag_start(),
        Some(DragStart { coord: 5.0f32.to_bits(), value: HALF })
    );
    assert!(s.drag_active());
}

#[test]
fn linear_slider_ignores_shift_press_mid_drag_until_it_moves() {
    let mut s = SliderInteraction::default();
    let style = SliderStyle::Horizontal;
    s.handle_pointer_event(style, press(Some(pos(5.0, 5.0)), false), HALF);
    let actions = s.handle_pointer_event(
        style,
        PointerEvent::ModifiersChanged { modifiers: mods(true, false, false), position: Some(pos(6.0, 5.0)) },
        HALF,
    );
    assert!(actions.is_empty());
    assert_eq!(s.granular_drag_start(), None);
    assert_eq!(s.modifiers(), mods(true, false, false));
}

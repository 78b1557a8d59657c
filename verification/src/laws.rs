use vstd::prelude::*;

use crate::interaction::{
    drag_move_step, pointer_step, press_step, release_step, submit_step,
    CursorPosition, DragStart, InteractionView, ParamAction, PointerEvent, ValueSource,
};
use crate::style::SliderStyle;

verus! {

/// The number of parameter gestures that a state holds open: one while a drag is active.
pub open spec fn open_gestures(s: InteractionView) -> int {
    if s.drag_active {
        1
    } else {
        0
    }
}

/// Performing `actions` with `open` gestures outstanding leaves `close` outstanding, never
/// ends a gesture that was not begun, and sets values only inside a gesture.
pub open spec fn bracketed(open: int, actions: Seq<ParamAction>, close: int) -> bool
    decreases actions.len(),
{
    if actions.len() == 0 {
        open == close
    } else {
        let rest = actions.drop_first();
        match actions[0] {
            ParamAction::BeginSetParameter => bracketed(open + 1, rest, close),
            ParamAction::EndSetParameter => open >= 1 && bracketed(open - 1, rest, close),
            ParamAction::SetNormalized(_) => open >= 1 && bracketed(open, rest, close),
            ParamAction::FocusTextInput => bracketed(open, rest, close),
        }
    }
}

/// One input to a slider over a session: a pointer or keyboard event with the parameter's
/// current normalized value, or a message from its text entry.
pub enum SliderInput {
    Pointer { event: PointerEvent, current_value: u32 },
    TextChanged(Seq<char>),
    /// The text entry was submitted and the parameter parsed this value from it.
    TextSubmitted(Option<u32>),
    TextClosed,
}

/// The effect of one input, as the methods of `SliderInteraction` state it.
pub open spec fn apply_input(s: InteractionView, style: SliderStyle, input: SliderInput) -> (
    InteractionView,
    Seq<ParamAction>,
) {
    match input {
        SliderInput::Pointer { event, current_value } => pointer_step(
            s,
            style,
            event,
            current_value,
        ),
        SliderInput::TextChanged(t) => (InteractionView { text_input_value: Some(t), ..s }, seq![]),
        SliderInput::TextSubmitted(entered) => submit_step(s, entered),
        SliderInput::TextClosed => (InteractionView { text_input_value: None, ..s }, seq![]),
    }
}

/// The state after a sequence of inputs and every action they asked for, in order.
pub open spec fn run(s: InteractionView, style: SliderStyle, inputs: Seq<SliderInput>) -> (
    InteractionView,
    Seq<ParamAction>,
)
    decreases inputs.len(),
{
    if inputs.len() == 0 {
        (s, seq![])
    } else {
        let first = apply_input(s, style, inputs[0]);
        let rest = run(first.0, style, inputs.drop_first());
        (rest.0, first.1 + rest.1)
    }
}

/// A press over the slider while a drag is already active.
pub open spec fn press_while_dragging(s: InteractionView, input: SliderInput) -> bool {
    s.drag_active && (input matches SliderInput::Pointer {
        event: PointerEvent::Pressed { position: Some(_), .. },
        ..
    })
}

/// No input of the sequence is a press over the slider while a drag is active.
pub open spec fn no_press_while_dragging(
    s: InteractionView,
    style: SliderStyle,
    inputs: Seq<SliderInput>,
) -> bool
    decreases inputs.len(),
{
    inputs.len() == 0 || (!press_while_dragging(s, inputs[0]) && no_press_while_dragging(
        apply_input(s, style, inputs[0]).0,
        style,
        inputs.drop_first(),
    ))
}

proof fn lemma_bracketed_concat(a: int, x: Seq<ParamAction>, b: int, y: Seq<ParamAction>, c: int)
    requires
        bracketed(a, x, b),
        bracketed(b, y, c),
    ensures
        bracketed(a, x + y, c),
    decreases x.len(),
{
    if x.len() == 0 {
        assert(x + y =~= y);
    } else {
        assert((x + y)[0] == x[0]);
        assert((x + y).drop_first() =~= x.drop_first() + y);
        match x[0] {
            ParamAction::BeginSetParameter => lemma_bracketed_concat(a + 1, x.drop_first(), b, y, c),
            ParamAction::EndSetParameter => lemma_bracketed_concat(a - 1, x.drop_first(), b, y, c),
            ParamAction::SetNormalized(_) => lemma_bracketed_concat(a, x.drop_first(), b, y, c),
            ParamAction::FocusTextInput => lemma_bracketed_concat(a, x.drop_first(), b, y, c),
        }
    }
}

/// Every single input keeps parameter gestures bracketed: the actions it asks for never end a
/// gesture that is not open, set values only inside a gesture, and leave exactly one gesture
/// open when, and only when, a drag is active afterwards. The one exception is a press over
/// the slider while a drag is already active, which begins a second gesture.
pub proof fn gestures_bracketed_by_input(s: InteractionView, style: SliderStyle, input: SliderInput)
    requires
        !press_while_dragging(s, input),
    ensures
        bracketed(
            open_gestures(s),
            apply_input(s, style, input).1,
            open_gestures(apply_input(s, style, input).0),
        ),
{
    reveal_with_fuel(bracketed, 4);
}

/// Over any session of inputs without a press while dragging, the actions asked for are
/// bracketed: every value is set inside a gesture, no gesture ends that was not begun, and
/// one gesture stays open exactly when a drag is active at the end.
pub proof fn gestures_bracketed_over_session(
    s: InteractionView,
    style: SliderStyle,
    inputs: Seq<SliderInput>,
)
    requires
        no_press_while_dragging(s, style, inputs),
    ensures
        bracketed(open_gestures(s), run(s, style, inputs).1, open_gestures(run(s, style, inputs).0)),
    decreases inputs.len(),
{
    if inputs.len() == 0 {
    } else {
        let first = apply_input(s, style, inputs[0]);
        gestures_bracketed_by_input(s, style, inputs[0]);
        gestures_bracketed_over_session(first.0, style, inputs.drop_first());
        let rest = run(first.0, style, inputs.drop_first());
        lemma_bracketed_concat(
            open_gestures(s),
            first.1,
            open_gestures(first.0),
            rest.1,
            open_gestures(rest.0),
        );
    }
}

/// A reset (Ctrl/Cmd+click or double click, without Alt) is a complete gesture of its own:
/// it begins a gesture, sets the parameter's default value and ends the gesture, and it does
/// not let the press drag the parameter to a new value.
pub proof fn reset_is_complete_gesture(
    s: InteractionView,
    style: SliderStyle,
    event: PointerEvent,
    current_value: u32,
)
    requires
        event matches PointerEvent::Pressed { position: Some(_), double_click, .. } && (
        s.modifiers.command || double_click),
        !s.modifiers.alt,
    ensures
        !pointer_step(s, style, event, current_value).0.drag_active,
        pointer_step(s, style, event, current_value).1 == seq![
            ParamAction::BeginSetParameter,
            ParamAction::SetNormalized(ValueSource::Default),
            ParamAction::EndSetParameter,
        ],
{
}

/// Alt+click over the slider shows the text entry with the parameter's displayed value and
/// focuses it; it starts no drag and changes no value.
pub proof fn alt_click_opens_text_entry(
    s: InteractionView,
    style: SliderStyle,
    event: PointerEvent,
    current_value: u32,
)
    requires
        event matches PointerEvent::Pressed { position: Some(_), .. },
        s.modifiers.alt,
    ensures
        !pointer_step(s, style, event, current_value).0.drag_active,
        pointer_step(s, style, event, current_value).0.text_input_value == Some(
            event->display_value@,
        ),
        pointer_step(s, style, event, current_value).1 == seq![ParamAction::FocusTextInput],
{
}

/// Submitting the text entry never starts a drag, and always hides the text entry.
pub proof fn entering_text_starts_no_drag(s: InteractionView, entered: Option<u32>)
    ensures
        submit_step(s, entered).0.drag_active == s.drag_active,
        submit_step(s, entered).0.text_input_value is None,
{
}

/// A shift+press, and any plain press on a rotary knob, starts a relative drag from the
/// parameter's current value without changing it: it only begins the gesture and records where
/// the drag started.
pub proof fn relative_drag_starts_without_jump(
    s: InteractionView,
    style: SliderStyle,
    position: CursorPosition,
    double_click: bool,
    display_value: Seq<char>,
    current_value: u32,
)
    requires
        !s.modifiers.alt,
        !s.modifiers.command,
        !double_click,
        s.modifiers.shift || style.spec_is_rotary(),
    ensures
        press_step(s, style, position, double_click, display_value, current_value).1 == seq![
            ParamAction::BeginSetParameter,
        ],
        press_step(s, style, position, double_click, display_value, current_value).0.drag_active,
        press_step(
            s,
            style,
            position,
            double_click,
            display_value,
            current_value,
        ).0.granular_drag_start == Some(
            DragStart { coord: style.spec_drag_coordinate(position), value: current_value },
        ),
{
}

/// While no drag is active, releases and moves change nothing and ask for nothing.
pub proof fn idle_pointer_changes_nothing(
    s: InteractionView,
    style: SliderStyle,
    event: PointerEvent,
    current_value: u32,
)
    requires
        !s.drag_active,
        event is Released || event is Moved,
    ensures
        pointer_step(s, style, event, current_value).0 == s,
        pointer_step(s, style, event, current_value).1 == Seq::<ParamAction>::empty(),
{
}

/// A release always leaves the slider without an active drag, and ends a gesture exactly when
/// a drag was active.
pub proof fn release_ends_drag(s: InteractionView)
    ensures
        !release_step(s).0.drag_active,
        release_step(s).1 == (if s.drag_active {
            seq![ParamAction::EndSetParameter]
        } else {
            Seq::<ParamAction>::empty()
        }),
{
}

/// A change of the keyboard modifiers is always recorded, and never begins or ends a gesture.
pub proof fn modifier_changes_recorded(
    s: InteractionView,
    style: SliderStyle,
    event: PointerEvent,
    current_value: u32,
)
    requires
        event is ModifiersChanged,
    ensures
        pointer_step(s, style, event, current_value).0.modifiers == event->modifiers,
        pointer_step(s, style, event, current_value).0.drag_active == s.drag_active,
        forall|i: int|
            0 <= i < pointer_step(s, style, event, current_value).1.len() ==> #[trigger] pointer_step(
                s,
                style,
                event,
                current_value,
            ).1[i] is SetNormalized,
{
}

/// During a relative drag (a rotary knob, or shift held), a move sets the value relative to
/// the recorded start of the drag, and keeps that start; a rotary knob drags ten times slower
/// while shift is held.
pub proof fn relative_drag_keeps_its_start(
    s: InteractionView,
    style: SliderStyle,
    position: CursorPosition,
    start: DragStart,
    current_value: u32,
)
    requires
        style.spec_is_rotary() || s.modifiers.shift,
        s.granular_drag_start == Some(start),
    ensures
        drag_move_step(s, style, position, current_value).0.granular_drag_start == Some(start),
        drag_move_step(s, style, position, current_value).1 == seq![
            ParamAction::SetNormalized(
                if style.spec_is_rotary() {
                    ValueSource::RotaryDrag {
                        start_coord: start.coord,
                        current_coord: style.spec_drag_coordinate(position),
                        start_value: start.value,
                        fine: s.modifiers.shift,
                    }
                } else {
                    ValueSource::Granular {
                        start_coord: start.coord,
                        current_coord: style.spec_drag_coordinate(position),
                        start_value: start.value,
                    }
                },
            ),
        ],
{
}

/// While a relative drag is active, a change of the keyboard modifiers never makes the value
/// jump: a rotary knob restarts its drag at the cursor from the current value, asking for
/// nothing, and a linear slider whose shift key is released drops the granular drag and
/// follows the cursor again.
pub proof fn modifier_change_during_relative_drag(
    s: InteractionView,
    style: SliderStyle,
    event: PointerEvent,
    position: CursorPosition,
    current_value: u32,
)
    requires
        s.drag_active,
        s.granular_drag_start is Some,
        event matches PointerEvent::ModifiersChanged { position: Some(p), .. } && p == position,
    ensures
        style.spec_is_rotary() ==> pointer_step(s, style, event, current_value).0.granular_drag_start
            == Some(DragStart { coord: position.y, value: current_value }),
        style.spec_is_rotary() ==> pointer_step(s, style, event, current_value).1
            == Seq::<ParamAction>::empty(),
        !style.spec_is_rotary() && !event->modifiers.shift ==> pointer_step(
            s,
            style,
            event,
            current_value,
        ).0.granular_drag_start is None,
        !style.spec_is_rotary() && !event->modifiers.shift ==> pointer_step(
            s,
            style,
            event,
            current_value,
        ).1 == seq![ParamAction::SetNormalized(ValueSource::Cursor(position))],
{
}

/// A rotary knob always knows where its drag started: once a drag of a rotary knob is active,
/// a drag start is recorded, and every input keeps it so.
pub proof fn rotary_drag_always_has_start(s: InteractionView, style: SliderStyle, input: SliderInput)
    requires
        style.spec_is_rotary(),
        s.drag_active ==> s.granular_drag_start is Some,
    ensures
        apply_input(s, style, input).0.drag_active ==> apply_input(
            s,
            style,
            input,
        ).0.granular_drag_start is Some,
{
}

/// A plain press (no Alt, no Ctrl/Cmd, no Shift, no double click) over a horizontal or vertical
/// slider jumps the value to the cursor: it begins a gesture, sets the value from the cursor
/// position, starts a drag and records no relative drag start.
pub proof fn plain_press_on_linear_slider_jumps_to_cursor(
    s: InteractionView,
    style: SliderStyle,
    event: PointerEvent,
    position: CursorPosition,
    current_value: u32,
)
    requires
        !(style is Rotary),
        !s.modifiers.alt,
        !s.modifiers.command,
        !s.modifiers.shift,
        event matches PointerEvent::Pressed { position: Some(p), double_click, .. } && p == position
            && !double_click,
    ensures
        pointer_step(s, style, event, current_value).1 == seq![
            ParamAction::BeginSetParameter,
            ParamAction::SetNormalized(ValueSource::Cursor(position)),
        ],
        pointer_step(s, style, event, current_value).0.drag_active,
        pointer_step(s, style, event, current_value).0.granular_drag_start is None,
        pointer_step(s, style, event, current_value).0.text_input_value == s.text_input_value,
        pointer_step(s, style, event, current_value).0.modifiers == s.modifiers,
{
}

/// During a drag of a horizontal or vertical slider without Shift held, a move to a known
/// position makes the value follow the cursor: exactly one value change, taken from the cursor
/// position, and no relative drag start is kept.
pub proof fn linear_drag_follows_cursor(
    s: InteractionView,
    style: SliderStyle,
    event: PointerEvent,
    position: CursorPosition,
    current_value: u32,
)
    requires
        !(style is Rotary),
        s.drag_active,
        !s.modifiers.shift,
        event matches PointerEvent::Moved { position: Some(p) } && p == position,
    ensures
        pointer_step(s, style, event, current_value).1 == seq![
            ParamAction::SetNormalized(ValueSource::Cursor(position)),
        ],
        pointer_step(s, style, event, current_value).0.drag_active,
        pointer_step(s, style, event, current_value).0.granular_drag_start is None,
        pointer_step(s, style, event, current_value).0.text_input_value == s.text_input_value,
{
}

/// Only a press over the slider can open the text entry: every other pointer or keyboard event,
/// modifier changes included, leaves the text entry exactly as it was.
pub proof fn only_presses_touch_text_entry(
    s: InteractionView,
    style: SliderStyle,
    event: PointerEvent,
    current_value: u32,
)
    requires
        !(event is Pressed),
    ensures
        pointer_step(s, style, event, current_value).0.text_input_value == s.text_input_value,
{
}

/// Any event other than a press, release, move or modifier change is ignored: the state stays
/// as it was, drag included, and nothing is asked for.
pub proof fn other_events_are_ignored(s: InteractionView, style: SliderStyle, current_value: u32)
    ensures
        pointer_step(s, style, PointerEvent::Other, current_value).0 == s,
        pointer_step(s, style, PointerEvent::Other, current_value).1 == Seq::<ParamAction>::empty(),
{
}

/// Only a release ends a drag: moves, modifier changes and other events keep the drag state
/// and never begin or end a gesture.
pub proof fn only_release_ends_drag(
    s: InteractionView,
    style: SliderStyle,
    event: PointerEvent,
    current_value: u32,
)
    requires
        !(event is Pressed),
        !(event is Released),
    ensures
        pointer_step(s, style, event, current_value).0.drag_active == s.drag_active,
        forall|i: int|
            0 <= i < pointer_step(s, style, event, current_value).1.len() ==> !(
            #[trigger] pointer_step(s, style, event, current_value).1[i] is BeginSetParameter)
                && !(pointer_step(s, style, event, current_value).1[i] is EndSetParameter),
{
}

/// Horizontal sliders read the cursor's x coordinate; vertical sliders and every rotary knob,
/// whatever its arc style, read its y coordinate.
pub proof fn drag_coordinate_by_axis(style: SliderStyle, position: CursorPosition)
    ensures
        style is Horizontal ==> style.spec_drag_coordinate(position) == position.x,
        !(style is Horizontal) ==> style.spec_drag_coordinate(position) == position.y,
        style is Horizontal ==> style.spec_value_axis() == crate::style::ValueAxis::Horizontal,
        !(style is Horizontal) ==> style.spec_value_axis()
            == crate::style::ValueAxis::VerticalInverted,
{
}

/// A rotary knob is dragged up and down: a plain or shift press on it records the cursor's y
/// coordinate as the drag start, and a move during its drag reads the cursor's y coordinate.
pub proof fn rotary_knob_drags_vertically(
    s: InteractionView,
    rotary: crate::style::RotaryStyle,
    event: PointerEvent,
    position: CursorPosition,
    current_value: u32,
)
    requires
        !s.modifiers.alt,
        !s.modifiers.command,
        event matches PointerEvent::Pressed { position: Some(p), double_click, .. } && p == position
            && !double_click,
    ensures
        pointer_step(s, SliderStyle::Rotary(rotary), event, current_value).0.granular_drag_start
            == Some(DragStart { coord: position.y, value: current_value }),
        pointer_step(s, SliderStyle::Rotary(rotary), event, current_value).1 == seq![
            ParamAction::BeginSetParameter,
        ],
        ({
            let pressed = pointer_step(s, SliderStyle::Rotary(rotary), event, current_value).0;
            let moved = PointerEvent::Moved { position: Some(position) };
            pointer_step(pressed, SliderStyle::Rotary(rotary), moved, current_value).1 == seq![
                ParamAction::SetNormalized(
                    ValueSource::RotaryDrag {
                        start_coord: position.y,
                        current_coord: position.y,
                        start_value: current_value,
                        fine: s.modifiers.shift,
                    },
                ),
            ]
        }),
{
}

/// A shift+press on a horizontal slider records the cursor's x coordinate as the drag start.
pub proof fn horizontal_shift_press_records_x(
    s: InteractionView,
    event: PointerEvent,
    position: CursorPosition,
    current_value: u32,
)
    requires
        !s.modifiers.alt,
        !s.modifiers.command,
        s.modifiers.shift,
        event matches PointerEvent::Pressed { position: Some(p), double_click, .. } && p == position
            && !double_click,
    ensures
        pointer_step(s, SliderStyle::Horizontal, event, current_value).0.granular_drag_start
            == Some(DragStart { coord: position.x, value: current_value }),
        pointer_step(s, SliderStyle::Horizontal, event, current_value).1 == seq![
            ParamAction::BeginSetParameter,
        ],
{
}

/// Submitting a parsed value sets exactly that value as one complete gesture; submitting text
/// the parameter could not parse asks for nothing. Either way only the text entry changes.
pub proof fn submitting_text_sets_entered_value(s: InteractionView, entered: Option<u32>)
    ensures
        submit_step(s, entered).1 == (match entered {
            Some(v) => seq![
                ParamAction::BeginSetParameter,
                ParamAction::SetNormalized(ValueSource::Entered(v)),
                ParamAction::EndSetParameter,
            ],
            None => Seq::<ParamAction>::empty(),
        }),
        submit_step(s, entered).0.modifiers == s.modifiers,
        submit_step(s, entered).0.granular_drag_start == s.granular_drag_start,
        submit_step(s, entered).0.drag_active == s.drag_active,
{
}

/// Outside a relative drag, a change of the keyboard modifiers only records the new modifiers.
pub proof fn modifier_change_outside_relative_drag(
    s: InteractionView,
    style: SliderStyle,
    event: PointerEvent,
    current_value: u32,
)
    requires
        !(s.drag_active && s.granular_drag_start is Some),
        event is ModifiersChanged,
    ensures
        pointer_step(s, style, event, current_value).0 == (InteractionView {
            modifiers: event->modifiers,
            ..s
        }),
        pointer_step(s, style, event, current_value).1 == Seq::<ParamAction>::empty(),
{
}

/// The first move of a relative drag that has no recorded start (Shift pressed during a drag
/// of a linear slider) starts at the cursor from the current value, so the value does not jump.
pub proof fn relative_drag_without_start_begins_at_cursor(
    s: InteractionView,
    style: SliderStyle,
    position: CursorPosition,
    current_value: u32,
)
    requires
        s.drag_active,
        s.granular_drag_start is None,
        s.modifiers.shift,
        !(style is Rotary),
    ensures
        pointer_step(
            s,
            style,
            PointerEvent::Moved { position: Some(position) },
            current_value,
        ).0.granular_drag_start == Some(
            DragStart {
                coord: if style is Horizontal {
                    position.x
                } else {
                    position.y
                },
                value: current_value,
            },
        ),
        pointer_step(s, style, PointerEvent::Moved { position: Some(position) }, current_value).1
            == seq![
            ParamAction::SetNormalized(
                ValueSource::Granular {
                    start_coord: if style is Horizontal {
                        position.x
                    } else {
                        position.y
                    },
                    current_coord: if style is Horizontal {
                        position.x
                    } else {
                        position.y
                    },
                    start_value: current_value,
                },
            ),
        ],
{
}

/// A press away from the slider and a move whose position is unknown change nothing.
pub proof fn events_without_position_change_nothing(
    s: InteractionView,
    style: SliderStyle,
    event: PointerEvent,
    current_value: u32,
)
    requires
        (event matches PointerEvent::Pressed { position: None, .. }) || (
        event matches PointerEvent::Moved { position: None }),
    ensures
        pointer_step(s, style, event, current_value).0 == s,
        pointer_step(s, style, event, current_value).1 == Seq::<ParamAction>::empty(),
{
}

/// Exactly the rotary styles are rotary.
pub proof fn rotary_styles(style: SliderStyle)
    ensures
        style.spec_is_rotary() <==> !(style is Horizontal || style is Vertical),
{
}

} // verus!

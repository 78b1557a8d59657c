use vstd::prelude::*;

use crate::style::SliderStyle;

verus! {

/// The keyboard modifiers that the slider reacts to.
#[derive(Debug, Clone, Copy, PartialEq, Eq, Structural)]
pub struct ModifierKeys {
    /// Shift: granular (fine) dragging.
    pub shift: bool,
    /// Alt: click to type in a value.
    pub alt: bool,
    /// The platform's command key (Ctrl, or Cmd on macOS): click to reset.
    pub command: bool,
}

/// A cursor position. Each coordinate is the bit pattern (`f32::to_bits`) of the position's
/// `f32` value: the interaction logic only carries coordinates through to the actions it
/// emits and never computes with them.
#[derive(Debug, Clone, Copy, PartialEq, Eq, Structural)]
pub struct CursorPosition {
    pub x: u32,
    pub y: u32,
}

/// Where a granular (relative) drag started: the cursor coordinate along the slider's value
/// axis and the normalized parameter value at that moment, both as `f32` bit patterns.
#[derive(Debug, Clone, Copy, PartialEq, Eq, Structural)]
pub struct DragStart {
    pub coord: u32,
    pub value: u32,
}

/// A pointer or keyboard event, as far as the slider reads it.
#[derive(Debug)]
pub enum PointerEvent {
    /// The left mouse button was pressed, or a finger touched the screen. `position` is the
    /// cursor position if the cursor lies over the slider and `None` otherwise; `double_click`
    /// says whether this press completes a double click; `display_value` is the parameter's
    /// current value as text, which an Alt+click puts into the text entry.
    Pressed { position: Option<CursorPosition>, double_click: bool, display_value: String },
    /// The left mouse button was released, or a finger was lifted or lost.
    Released,
    /// The cursor or a finger moved; `position` is the cursor position, if known.
    Moved { position: Option<CursorPosition> },
    /// The keyboard modifiers changed; `position` is the cursor position, if known.
    ModifiersChanged { modifiers: ModifierKeys, position: Option<CursorPosition> },
    /// Any other event.
    Other,
}

/// How the normalized value of a parameter change is obtained from the widget's geometry and
/// the parameter. Values and coordinates are `f32` bit patterns.
#[derive(Debug, Clone, Copy, PartialEq, Eq, Structural)]
pub enum ValueSource {
    /// The parameter's default value (a reset).
    Default,
    /// The absolute position of the cursor along the slider's value axis.
    Cursor(CursorPosition),
    /// A granular drag of a linear slider: `start_value` moved by a tenth of the distance from
    /// `start_coord` to `current_coord`.
    Granular { start_coord: u32, current_coord: u32, start_value: u32 },
    /// A relative drag of a rotary knob; `fine` drags ten times slower.
    RotaryDrag { start_coord: u32, current_coord: u32, start_value: u32, fine: bool },
    /// A value that was typed into the text entry and parsed by the parameter.
    Entered(u32),
}

/// What the slider asks its host to do, in order.
#[derive(Debug, Clone, Copy, PartialEq, Eq, Structural)]
pub enum ParamAction {
    /// Publish the start of a parameter gesture.
    BeginSetParameter,
    /// Set the parameter to the normalized value that `ValueSource` gives, if that changes the
    /// parameter's plain value.
    SetNormalized(ValueSource),
    /// Publish the end of a parameter gesture.
    EndSetParameter,
    /// Select all text in the text entry, move its cursor to the end and focus it.
    FocusTextInput,
}

/// The mouse cursor that the slider asks for.
#[derive(Debug, Clone, Copy, PartialEq, Eq, Structural)]
pub enum PointerShape {
    /// The pointing hand, shown over the slider.
    Pointer,
    /// The default cursor.
    Idle,
}

/// The mathematical model of a [`SliderInteraction`].
pub struct InteractionView {
    pub modifiers: ModifierKeys,
    pub drag_active: bool,
    pub granular_drag_start: Option<DragStart>,
    pub text_input_value: Option<Seq<char>>,
}

/// The interaction state of a slider.
pub struct SliderInteraction {
    /// The keyboard modifiers last reported.
    modifiers: ModifierKeys,
    /// Set to `true` while the parameter is being dragged. Resetting the parameter or entering
    /// a text value does not initiate a drag.
    drag_active: bool,
    /// The start coordinate and normalized value of a granular (relative) drag.
    granular_drag_start: Option<DragStart>,
    /// The text currently in the text entry; `None` when the text entry is not visible.
    text_input_value: Option<String>,
}

pub open spec fn view_text(text: Option<String>) -> Option<Seq<char>> {
    match text {
        Some(s) => Some(s@),
        None => None,
    }
}

impl View for SliderInteraction {
    type V = InteractionView;

    closed spec fn view(&self) -> InteractionView {
        InteractionView {
            modifiers: self.modifiers,
            drag_active: self.drag_active,
            granular_drag_start: self.granular_drag_start,
            text_input_value: view_text(self.text_input_value),
        }
    }
}

/// No modifier held.
pub open spec fn no_modifiers() -> ModifierKeys {
    ModifierKeys { shift: false, alt: false, command: false }
}

/// The state of a freshly created slider: nothing held, no drag, no text entry.
pub open spec fn initial_interaction() -> InteractionView {
    InteractionView {
        modifiers: no_modifiers(),
        drag_active: false,
        granular_drag_start: None,
        text_input_value: None,
    }
}

/// A press over the slider at `position`.
pub open spec fn press_step(
    s: InteractionView,
    style: SliderStyle,
    position: CursorPosition,
    double_click: bool,
    display_value: Seq<char>,
    current_value: u32,
) -> (InteractionView, Seq<ParamAction>) {
    if s.modifiers.alt {
        // Alt+click shows the text entry and starts no drag.
        (
            InteractionView { drag_active: false, text_input_value: Some(display_value), ..s },
            seq![ParamAction::FocusTextInput],
        )
    } else if s.modifiers.command || double_click {
        // A reset is a complete gesture of its own and starts no drag.
        (
            InteractionView { drag_active: false, ..s },
            seq![
                ParamAction::BeginSetParameter,
                ParamAction::SetNormalized(ValueSource::Default),
                ParamAction::EndSetParameter,
            ],
        )
    } else if s.modifiers.shift || style.spec_is_rotary() {
        // Granular drags and rotary knobs start from the current value, without a jump.
        (
            InteractionView {
                drag_active: true,
                granular_drag_start: Some(
                    DragStart { coord: style.spec_drag_coordinate(position), value: current_value },
                ),
                ..s
            },
            seq![ParamAction::BeginSetParameter],
        )
    } else {
        (
            InteractionView { drag_active: true, granular_drag_start: None, ..s },
            seq![
                ParamAction::BeginSetParameter,
                ParamAction::SetNormalized(ValueSource::Cursor(position)),
            ],
        )
    }
}

/// A release of the button or finger.
pub open spec fn release_step(s: InteractionView) -> (InteractionView, Seq<ParamAction>) {
    if s.drag_active {
        (InteractionView { drag_active: false, ..s }, seq![ParamAction::EndSetParameter])
    } else {
        (s, seq![])
    }
}

/// A move of the cursor to `position` during a drag.
pub open spec fn drag_move_step(
    s: InteractionView,
    style: SliderStyle,
    position: CursorPosition,
    current_value: u32,
) -> (InteractionView, Seq<ParamAction>) {
    let coord = style.spec_drag_coordinate(position);
    if style.spec_is_rotary() || s.modifiers.shift {
        // A drag without a recorded start starts here, from the current value.
        let start = match s.granular_drag_start {
            Some(d) => d,
            None => DragStart { coord, value: current_value },
        };
        let source = if style.spec_is_rotary() {
            ValueSource::RotaryDrag {
                start_coord: start.coord,
                current_coord: coord,
                start_value: start.value,
                fine: s.modifiers.shift,
            }
        } else {
            ValueSource::Granular {
                start_coord: start.coord,
                current_coord: coord,
                start_value: start.value,
            }
        };
        (
            InteractionView { granular_drag_start: Some(start), ..s },
            seq![ParamAction::SetNormalized(source)],
        )
    } else {
        (
            InteractionView { granular_drag_start: None, ..s },
            seq![ParamAction::SetNormalized(ValueSource::Cursor(position))],
        )
    }
}

/// A change of the keyboard modifiers to `modifiers`.
pub open spec fn modifiers_step(
    s: InteractionView,
    style: SliderStyle,
    modifiers: ModifierKeys,
    position: Option<CursorPosition>,
    current_value: u32,
) -> (InteractionView, Seq<ParamAction>) {
    let s1 = InteractionView { modifiers, ..s };
    if s.drag_active && s.granular_drag_start is Some {
        if style.spec_is_rotary() {
            // A rotary drag restarts from here so that the change of speed makes no jump.
            match position {
                Some(p) => (
                    InteractionView {
                        granular_drag_start: Some(DragStart { coord: p.y, value: current_value }),
                        ..s1
                    },
                    seq![],
                ),
                None => (s1, seq![]),
            }
        } else if !modifiers.shift {
            // Releasing shift snaps a linear slider back to the cursor.
            let s2 = InteractionView { granular_drag_start: None, ..s1 };
            match position {
                Some(p) => (s2, seq![ParamAction::SetNormalized(ValueSource::Cursor(p))]),
                None => (s2, seq![]),
            }
        } else {
            (s1, seq![])
        }
    } else {
        (s1, seq![])
    }
}

/// The effect of one pointer or keyboard event, given the parameter's current normalized
/// value `current_value`.
pub open spec fn pointer_step(
    s: InteractionView,
    style: SliderStyle,
    event: PointerEvent,
    current_value: u32,
) -> (InteractionView, Seq<ParamAction>) {
    match event {
        PointerEvent::Pressed { position, double_click, display_value } => match position {
            Some(p) => press_step(s, style, p, double_click, display_value@, current_value),
            None => (s, seq![]),
        },
        PointerEvent::Released => release_step(s),
        PointerEvent::Moved { position } => if s.drag_active {
            match position {
                Some(p) => drag_move_step(s, style, p, current_value),
                None => (s, seq![]),
            }
        } else {
            (s, seq![])
        },
        PointerEvent::ModifiersChanged { modifiers, position } => modifiers_step(
            s,
            style,
            modifiers,
            position,
            current_value,
        ),
        PointerEvent::Other => (s, seq![]),
    }
}

/// Submitting the text entry, where `entered` is what the parameter parsed from its text.
pub open spec fn submit_step(s: InteractionView, entered: Option<u32>) -> (
    InteractionView,
    Seq<ParamAction>,
) {
    let s1 = InteractionView { text_input_value: None, ..s };
    match entered {
        Some(v) => (
            s1,
            seq![
                ParamAction::BeginSetParameter,
                ParamAction::SetNormalized(ValueSource::Entered(v)),
                ParamAction::EndSetParameter,
            ],
        ),
        None => (s1, seq![]),
    }
}

impl Default for SliderInteraction {
    fn default() -> (s: Self)
        ensures
            s@ == initial_interaction(),
    {
        SliderInteraction {
            modifiers: ModifierKeys { shift: false, alt: false, command: false },
            drag_active: false,
            granular_drag_start: None,
            text_input_value: None,
        }
    }
}

/// The mouse cursor for the slider: the pointing hand while the cursor is over it.
pub fn pointer_shape(cursor_over: bool) -> (shape: PointerShape)
    ensures
        shape == (if cursor_over { PointerShape::Pointer } else { PointerShape::Idle }),
{
    if cursor_over {
        PointerShape::Pointer
    } else {
        PointerShape::Idle
    }
}

impl SliderInteraction {
    /// Whether a drag is in progress.
    pub fn drag_active(&self) -> (active: bool)
        ensures
            active == self@.drag_active,
    {
        self.drag_active
    }

    /// The keyboard modifiers last reported.
    pub fn modifiers(&self) -> (modifiers: ModifierKeys)
        ensures
            modifiers == self@.modifiers,
    {
        self.modifiers
    }

    /// The start of the current granular drag, if one was recorded.
    pub fn granular_drag_start(&self) -> (start: Option<DragStart>)
        ensures
            start == self@.granular_drag_start,
    {
        self.granular_drag_start
    }

    /// The text in the text entry, or `None` when the text entry is not shown.
    pub fn text_input_value(&self) -> (text: Option<&String>)
        ensures
            match text {
                Some(t) => self@.text_input_value == Some(t@),
                None => self@.text_input_value is None,
            },
    {
        match &self.text_input_value {
            Some(t) => Some(t),
            None => None,
        }
    }

    /// Whether the slider is drawn highlighted: while the cursor is over it, while it is being
    /// dragged and while its text entry is shown.
    pub fn is_highlighted(&self, cursor_over: bool) -> (highlighted: bool)
        ensures
            highlighted == (cursor_over || self@.drag_active || self@.text_input_value is Some),
    {
        cursor_over || self.drag_active || self.text_input_value.is_some()
    }

    /// The text entry's content changed to `value`.
    pub fn text_input_changed(&mut self, value: String)
        ensures
            final(self)@ == (InteractionView { text_input_value: Some(value@), ..old(self)@ }),
    {
        self.text_input_value = Some(value);
    }

    /// The text entry lost its focus: it is hidden and its text is dropped.
    pub fn close_text_input(&mut self)
        ensures
            final(self)@ == (InteractionView { text_input_value: None, ..old(self)@ }),
    {
        self.text_input_value = None;
    }

    /// The text entry was submitted; `entered` is the normalized value that the parameter
    /// parsed from the entry's text, if it could. A parsed value is set as one complete
    /// gesture; either way the text entry is hidden.
    pub fn submit_text_input(&mut self, entered: Option<u32>) -> (actions: Vec<ParamAction>)
        ensures
            final(self)@ == submit_step(old(self)@, entered).0,
            actions@ == submit_step(old(self)@, entered).1,
    {
        let mut actions: Vec<ParamAction> = Vec::new();
        if let Some(v) = entered {
            actions.push(ParamAction::BeginSetParameter);
            actions.push(ParamAction::SetNormalized(ValueSource::Entered(v)));
            actions.push(ParamAction::EndSetParameter);
        }
        self.text_input_value = None;
        proof {
            assert(actions@ =~= submit_step(old(self)@, entered).1);
        }
        actions
    }

    fn press(
        &mut self,
        style: SliderStyle,
        position: CursorPosition,
        double_click: bool,
        display_value: String,
        current_value: u32,
    ) -> (actions: Vec<ParamAction>)
        ensures
            final(self)@ == press_step(
                old(self)@,
                style,
                position,
                double_click,
                display_value@,
                current_value,
            ).0,
            actions@ == press_step(
                old(self)@,
                style,
                position,
                double_click,
                display_value@,
                current_value,
            ).1,
    {
        let ghost expected = press_step(
            self@,
            style,
            position,
            double_click,
            display_value@,
            current_value,
        );
        let mut actions: Vec<ParamAction> = Vec::new();
        if self.modifiers.alt {
            self.drag_active = false;
            self.text_input_value = Some(display_value);
            actions.push(ParamAction::FocusTextInput);
        } else if self.modifiers.command || double_click {
            self.drag_active = false;
            actions.push(ParamAction::BeginSetParameter);
            actions.push(ParamAction::SetNormalized(ValueSource::Default));
            actions.push(ParamAction::EndSetParameter);
        } else if self.modifiers.shift || style.is_rotary() {
            actions.push(ParamAction::BeginSetParameter);
            self.drag_active = true;
            self.granular_drag_start = Some(
                DragStart { coord: style.drag_coordinate(position), value: current_value },
            );
        } else {
            actions.push(ParamAction::BeginSetParameter);
            self.drag_active = true;
            actions.push(ParamAction::SetNormalized(ValueSource::Cursor(position)));
            self.granular_drag_start = None;
        }
        proof {
            assert(actions@ =~= expected.1);
        }
        actions
    }

    fn release(&mut self) -> (actions: Vec<ParamAction>)
        ensures
            final(self)@ == release_step(old(self)@).0,
            actions@ == release_step(old(self)@).1,
    {
        let mut actions: Vec<ParamAction> = Vec::new();
        if self.drag_active {
            actions.push(ParamAction::EndSetParameter);
            self.drag_active = false;
        }
        proof {
            assert(actions@ =~= release_step(old(self)@).1);
        }
        actions
    }

    fn drag_move(&mut self, style: SliderStyle, position: CursorPosition, current_value: u32) -> (actions: Vec<ParamAction>)
        ensures
            final(self)@ == drag_move_step(old(self)@, style, position, current_value).0,
            actions@ == drag_move_step(old(self)@, style, position, current_value).1,
    {
        let ghost expected = drag_move_step(self@, style, position, current_value);
        let mut actions: Vec<ParamAction> = Vec::new();
        let coord = style.drag_coordinate(position);
        if style.is_rotary() || self.modifiers.shift {
            let start = match self.granular_drag_start {
                Some(d) => d,
                None => {
                    let d = DragStart { coord, value: current_value };
                    self.granular_drag_start = Some(d);
                    d
                },
            };
            let source = if style.is_rotary() {
                ValueSource::RotaryDrag {
                    start_coord: start.coord,
                    current_coord: coord,
                    start_value: start.value,
                    fine: self.modifiers.shift,
                }
            } else {
                ValueSource::Granular {
                    start_coord: start.coord,
                    current_coord: coord,
                    start_value: start.value,
                }
            };
            actions.push(ParamAction::SetNormalized(source));
        } else {
            self.granular_drag_start = None;
            actions.push(ParamAction::SetNormalized(ValueSource::Cursor(position)));
        }
        proof {
            assert(actions@ =~= expected.1);
        }
        actions
    }

    fn modifiers_changed(
        &mut self,
        style: SliderStyle,
        modifiers: ModifierKeys,
        position: Option<CursorPosition>,
        current_value: u32,
    ) -> (actions: Vec<ParamAction>)
        ensures
            final(self)@ == modifiers_step(old(self)@, style, modifiers, position, current_value).0,
            actions@ == modifiers_step(old(self)@, style, modifiers, position, current_value).1,
    {
        let ghost expected = modifiers_step(self@, style, modifiers, position, current_value);
        let mut actions: Vec<ParamAction> = Vec::new();
        self.modifiers = modifiers;
        if self.drag_active && self.granular_drag_start.is_some() {
            if style.is_rotary() {
                if let Some(p) = position {
                    self.granular_drag_start = Some(DragStart { coord: p.y, value: current_value });
                }
            } else if !modifiers.shift {
                self.granular_drag_start = None;
                if let Some(p) = position {
                    actions.push(ParamAction::SetNormalized(ValueSource::Cursor(p)));
                }
            }
        }
        proof {
            assert(actions@ =~= expected.1);
        }
        actions
    }

    /// Handles one pointer or keyboard event; `current_value` is the parameter's current
    /// (modulated) normalized value as an `f32` bit pattern. Returns what the host should do,
    /// in order.
    pub fn handle_pointer_event(
        &mut self,
        style: SliderStyle,
        event: PointerEvent,
        current_value: u32,
    ) -> (actions: Vec<ParamAction>)
        ensures
            final(self)@ == pointer_step(old(self)@, style, event, current_value).0,
            actions@ == pointer_step(old(self)@, style, event, current_value).1,
    {
        match event {
            PointerEvent::Pressed { position, double_click, display_value } => match position {
                Some(p) => self.press(style, p, double_click, display_value, current_value),
                None => {
                    let actions: Vec<ParamAction> = Vec::new();
                    proof {
                        assert(actions@ =~= seq![]);
                    }
                    actions
                },
            },
            PointerEvent::Released => self.release(),
            PointerEvent::Moved { position } => {
                if self.drag_active {
                    if let Some(p) = position {
                        return self.drag_move(style, p, current_value);
                    }
                }
                let actions: Vec<ParamAction> = Vec::new();
                proof {
                    assert(actions@ =~= seq![]);
                }
                actions
            },
            PointerEvent::ModifiersChanged { modifiers, position } => self.modifiers_changed(
                style,
                modifiers,
                position,
                current_value,
            ),
            PointerEvent::Other => {
                let actions: Vec<ParamAction> = Vec::new();
                proof {
                    assert(actions@ =~= seq![]);
                }
                actions
            },
        }
    }
}

} // verus!

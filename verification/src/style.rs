use vstd::prelude::*;

use crate::interaction::CursorPosition;

verus! {

/// Style configuration for how the slider should be displayed and behave.
#[derive(Debug, Clone, Copy, PartialEq, Eq, Structural)]
pub enum SliderStyle {
    /// Traditional horizontal slider (default)
    Horizontal,
    /// Vertical slider with up/down dragging
    Vertical,
    /// Rotary knob with configurable arc styles
    Rotary(RotaryStyle),
}

/// Style configuration for rotary sliders.
#[derive(Debug, Clone, Copy, PartialEq, Eq, Structural)]
pub enum RotaryStyle {
    /// Unipolar: 0% to 100%, arc grows from bottom
    Unipolar,
    /// Bipolar: 0% to 200% with center at 100%, arc grows from center
    Bipolar,
    /// Width-style like Ableton Live: 100% = 45° arc both sides, 200% = 240° arc, 0% = no arc
    Width,
    /// Full 360° rotation in both directions from a starting position, with +/- symbols in
    /// the center. Can start from top or bottom.
    BipolarFullCircle { start_from_top: bool },
}

/// The screen axis along which a slider maps cursor positions to normalized values.
#[derive(Debug, Clone, Copy, PartialEq, Eq, Structural)]
pub enum ValueAxis {
    /// Left edge is 0, right edge is 1.
    Horizontal,
    /// Bottom edge is 0, top edge is 1 (screen coordinates grow downwards).
    VerticalInverted,
}

impl Default for SliderStyle {
    fn default() -> (style: Self)
        ensures
            style == SliderStyle::Horizontal,
    {
        SliderStyle::Horizontal
    }
}

impl SliderStyle {
    /// Whether this is a rotary knob.
    pub open spec fn spec_is_rotary(&self) -> bool {
        self is Rotary
    }

    /// The axis that cursor positions are read along: rotary knobs are dragged up and down
    /// like vertical sliders.
    pub open spec fn spec_value_axis(&self) -> ValueAxis {
        match self {
            SliderStyle::Horizontal => ValueAxis::Horizontal,
            _ => ValueAxis::VerticalInverted,
        }
    }

    /// The coordinate of a cursor position along this style's value axis.
    pub open spec fn spec_drag_coordinate(&self, position: CursorPosition) -> u32 {
        match self.spec_value_axis() {
            ValueAxis::Horizontal => position.x,
            ValueAxis::VerticalInverted => position.y,
        }
    }

    /// Whether this is a rotary knob.
    #[verifier::when_used_as_spec(spec_is_rotary)]
    pub fn is_rotary(&self) -> (rotary: bool)
        ensures
            rotary == self.spec_is_rotary(),
    {
        match self {
            SliderStyle::Rotary(_) => true,
            _ => false,
        }
    }

    /// The axis along which cursor positions map to normalized values for this style.
    #[verifier::when_used_as_spec(spec_value_axis)]
    pub fn value_axis(&self) -> (axis: ValueAxis)
        ensures
            axis == self.spec_value_axis(),
    {
        match self {
            SliderStyle::Horizontal => ValueAxis::Horizontal,
            SliderStyle::Vertical => ValueAxis::VerticalInverted,
            SliderStyle::Rotary(_) => ValueAxis::VerticalInverted,
        }
    }

    /// The coordinate of `position` along this style's value axis: `x` for horizontal
    /// sliders, `y` for vertical sliders and rotary knobs.
    #[verifier::when_used_as_spec(spec_drag_coordinate)]
    pub fn drag_coordinate(&self, position: CursorPosition) -> (coord: u32)
        ensures
            coord == self.spec_drag_coordinate(position),
    {
        match self.value_axis() {
            ValueAxis::Horizontal => position.x,
            ValueAxis::VerticalInverted => position.y,
        }
    }
}

} // verus!

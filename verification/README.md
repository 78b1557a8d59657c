# param_slider

The interaction logic of a parameter slider widget for audio plugin editors, verified with Verus.

- `src/style.rs`: the slider styles (horizontal, vertical, rotary knobs) and the axis along
  which each style reads the cursor.
- `src/interaction.rs`: the slider's interaction state and the state machine that turns presses,
  releases, moves, modifier changes and text-entry messages into parameter actions (begin a
  gesture, set a value, end a gesture, focus the text entry), each with an exact contract.
- `src/laws.rs`: what holds across events, proved: gestures stay bracketed over any session
  without a press during a drag, resets and text entry never start drags, relative drags never
  jump, and rotary drags always know where they started.
- `app/`: the iced widget that draws the slider, maps cursor positions to values (`f32`
  arithmetic) and talks to NIH-plug's parameters.

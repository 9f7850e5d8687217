# tower_defense

The rules of a small tower-defense scene, verified with Verus: the countdown
timers that make a tower shoot, targets spawn and bullets expire; which
targets die; which target a tower aims at; how the camera keys move the
camera; and which gamepad the player holds.

- `src/` is the verified library. `timer` holds an engine timer as plain
  integers and ticks it through the engine (`bevy::time::Timer`); the other
  modules (`common`, `bullet`, `target`, `tower`, `camera`, `gamepad`) state
  the game's rules over it and prove laws about runs of frames.
- `app/` is the game program: it runs those rules inside the engine, and
  keeps the floating-point motion, rendering, physics plugins and input
  devices.
- `tests/` runs the library on concrete frames.

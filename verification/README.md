# Oogaxi

A flying-taxi game: a caveman pilots a pedal copter, picks up passengers at
taxi stops and flies them to the address they ask for, dodging pterodactyls.

- `src/` is the `oogaxi` library, verified with Verus: the passenger trip
  (from the cave to the sign, boarding, riding, paying or not), the
  passenger spawner, the taxi-stop registry, the pterodactyl behaviour
  cycle, screens and menu navigation, scoring, animation playheads, sprite
  sheet reading, input bindings, mesh topology and the copter's grounding.
- `tests/` exercises the library on concrete values.
- `app/` is the Bevy game around it: rendering, input devices, level
  loading and the floating-point simulation (flight, collision, water,
  camera, lights, particles).

# bebeu_engine

The verified core of a belt-scroll beat-'em-up engine, written in Verus.

`src/` holds the logic that the game runs every tick, each function with a
contract proved by Verus:

- `entities/` — the data model: roles, hit boxes, frame sounds, combat
  settings, level areas and opponent triggers, resolutions and HUD colors
  (with a verified `#RRGGBB[AA]` parser and printer).
- `features/character/` — animation timing, the character state machine,
  the knockback flow, hit resolution (victim choice, juggle and down-hit
  limits), frame-sound dispatch, the AI brains
  and command actuator, the debug pause, and the debug overlay text.
- `features/hud.rs` — which enemy an enemy HP bar follows, which sprite a
  player icon shows, and when it shakes on damage.
- `shared/` — key bindings and `input.yml` text, flips, player ids, text
  helpers, and runtime paths.
- `boot/`, `scenes/` — start-up options, render sizes, and the title and
  key-config menus.

Laws that relate several calls (gauge refills, knock-outs are permanent,
sounds fire after their delay, menus wrap, round trips of names and colors)
are stated as public proof functions next to the code they are about.

`app/` is the Bevy runtime around the library: window, assets, YAML files,
ECS systems, and the floating-point geometry (positions, velocities, boxes,
HUD layout). It hands plain values to the library and applies its decisions.

`tests/` runs the library on concrete inputs.

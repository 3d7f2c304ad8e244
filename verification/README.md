# ld44

The rules of a 2D action platformer in which health is the currency: you
pay for items with health and win it back by defeating enemies. The rules
are written in Verus and proved against their contracts.

- `src/` — the verified library: damage and rewards, items, enemies and
  their blueprints, the level file (read through the JSON library) and
  the loader's plans for players, enemies and tiles, per-level statistics, best times, level progression and
  campaigns, savefile framing (base64), the screens' decisions, the timer
  decisions, the level-file loader's decisions, and the parsers of the
  resolution file and of animation properties.
- `tests/` — tests of the library on concrete values.
- `app/` — a headless driver around the library: it reads the resolution,
  settings and savefile files (RON, JSON), runs the timers the library plans
  for and one frame of play, writes the savefile, logs crashes, and keeps the floating-point helpers that the library does not
  hold.

# music_mercenary

Game logic of a browser rhythm game: bricks fall to the music and a runner
breaks them with slashes and dashes of the matching type.

- `src/` is the verified library (Verus):
  - `player.rs` — the runner's action state machine (slash and dash
    requests, their delayed landing, facing, per-tick strikes), generic over
    the values that carry times and areas;
  - `game.rs` — a chart written in beats, kept as an ordered set of notes,
    with note selection, editing and scoring;
  - `field.rs` — the bricks on the field: order-preserving removal of the
    broken and off-screen ones, and which bricks a strike breaks;
  - `song.rs` — a song written in seconds: timing grades and their points,
    note columns, the toggle cycle of a note, the score keeper and the JSON
    framing of saved notes;
  - `objects.rs`, `resources.rs`, `lib.rs` — shared types and constants.
- `app/` is the WebAssembly face of the game: the real-valued geometry and
  timing (positions, speeds, time windows) and the entry points the page
  calls, with notes handed out as JavaScript objects.
- `tests/` exercises the library on concrete values.

# Merchant

A trading game in the spirit of Drug Wars, set on a merchant ship in the
eighteenth century, played in a terminal. The library holds the game's rules
and its screens, with contracts proved by Verus; the program around it reads
keys and writes to the terminal.

## Layout

- `src/` — the verified library.
  - `game_state.rs`, `game_laws.rs`: the state of a game, every request a
    player can make of it, and laws relating the requests (undoing, keeping
    totals, what a voyage costs).
  - `debug_text.rs`: the text a refused request is reported with, the
    pretty-printed debug form of the error.
  - `engine.rs`, `keys.rs`: which request a key press makes in each mode, and
    what the game loop is told afterwards.
  - `scene.rs`, `screens.rs`, `panels.rs`, `prompts.rs`, `encounters.rs`,
    `title_screens.rs`, `components.rs`: the screens, as sequences of drawing
    commands with the exact text and place of everything drawn.
  - `commands.rs`, `style.rs`, `render_raw.rs`, `html.rs`, `html_text.rs`:
    drawing commands, their styles, and their renderings as plain text and as
    HTML (and back from HTML to text).
  - `web_input.rs`: how a web page's key presses and phone-keyboard input
    reach the game (which reports are ignored, which key each one is).
  - `ansi_format.rs`: the plain text that a terminal shows for output holding
    ANSI escape sequences.
  - `locations.rs`, `game_rng.rs`, `rng.rs`, `goods_map.rs`, `location_map.rs`,
    `events.rs`, `good.rs`, `location.rs`: ports, prices, events and the random
    draws behind them.
- `app/` — the terminal program: the game loop, terminal input and output, and
  the floating-point parts (price ranges, the chance to escape pirates).
- `tests/` — tests of the library, among them whole games played key by key.

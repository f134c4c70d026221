# twin_type

Game logic of Twin Type, a cooperative Japanese typing game for two players:
one keyboard layout is split between a left and a right player, each typing
on a keyboard of their own, and together they spell the romaji of a word.

- `src/` is the library, verified with Verus:
  - `sharing`: key numbers, key characters, and which player owns each key;
  - `problem`: the current problem and how its romaji is shown key by key;
  - `words`: choosing an unused word of a level at random;
  - `in_game`: a game in progress and what a key press does to it;
  - `status_board`: score and remaining time;
  - `result_screen`: the counts of each player and how they compare;
  - `screens`: the screens and what their buttons do.
- `tests/` runs the library on concrete values.
- `app/` is the Bevy application around the library: windows, text, keyboard
  events, the romaji parser and the word lists.

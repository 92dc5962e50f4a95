# mahc

Scoring of riichi mahjong hands, verified with Verus.

- `src/` is the library. Tile notation (`234po`, `EEEw`, `0m`, `5z`) is read by
  `tile_group`, hands are judged and their yaku, fu and dora counted in `hand`,
  payments computed in `payment` and `calc`, and the text reports of the command
  line are built in `cli`. Every function carries a contract over a mathematical
  model of the hand (`hand::model`, `hand::yaku_model`); `laws` states the
  properties that hold across functions, such as the rounding of payments and the
  separation of yakuman from other yaku.
- `app/` is the command line program: argument parsing, JSON output and file
  input and output.
- `tests/` holds the tests.

# cyber_divination

A terminal ritual that casts a Zhouyi hexagram one key press at a time, with
its logic verified by Verus.

Each press of Enter draws one yarrow digit (2 or 3) from the clock and the
operating system's randomness; three digits make a line (6, 7, 8 or 9), six
lines make the primary hexagram, the changing lines (6 and 9) give the relating
hexagram, and the reading follows the traditional rule.

Layout:

- `src/yijing.rs` — line values, the hexagram of six lines, changing lines, the
  relating hexagram and the reading, with their laws.
- `src/texts.rs` — the hexagram names and the classic text with glosses, as
  `|`-separated tables, and the verified field lookup.
- `src/entropy.rs` — the entropy source trait, with the record of requests and
  answers that the state machine's contracts speak of, and the clock-and-OS source.
- `src/app.rs` — the ritual's state machine, its invariant and its laws.
- `src/view.rs` — the text of every panel, as styled segments.
- `src/text.rs`, `src/clock.rs` — number formatting and the monotonic clock.
- `app/` — the terminal front end (`crossterm`, `ratatui`): event loop and drawing.
- `tests/` — tests of the library.

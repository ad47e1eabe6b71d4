# Flappy Dragon

A terminal and web game: a dragon flaps through pipes, from a city at dawn
up through the atmosphere and the solar system to the Oort cloud. Classic
mode is the plain pipe game; the journey mode speeds up, narrows its gaps
and changes scenery as pipes are passed, and is won after 1400 pipes.

Layout:

- `src/` — the game's rules, verified with Verus: difficulty curves
  (`tuning`), the dragon (`player`), pipes (`obstacle`), the day/night sky
  (`sky`), the weather and clouds (`weather`), the stretches of the journey
  and the city skyline (`journey`), the solar system, the Earth and the
  discs of the planets (`space`), the frame-by-frame state machine
  (`game`), the requests that a host page makes (`host`), and a no-op
  console-signal interface (`signal`). Time is kept in whole microseconds
  and positions in whole cells (clouds in millionths of a cell), so every
  rule is stated and proved over integers.
- `app/` — the bracket-lib terminal, the main loop, the web page's entry
  points, and the drawing: it paints each cell as the library classifies
  it, and keeps the few colour fades and brightness scalings that are
  computed in floating point.
- `tests/` — behaviour tests of the library.

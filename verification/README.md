# duel_game

A turn-based duel: each player stops a running counter (0 to 99, looping)
as close as possible to random objectives; the higher average score wins the
round and takes the gap in vitality from the other player, who then receives a
poison chosen by the winner.

- `src/` — the verified library: players (`player`), the game and its rounds
  (`game`), scoring and objectives (`scoring`), the counter state, key
  decisions and typed answers (`counter`), decimal rendering (`text`).
- `app/` — the terminal program: arguments, logging, threads that run and
  display the counter, keyboard and line input, and the floating-point average
  of a turn's scores.
- `tests/` — tests of the library.

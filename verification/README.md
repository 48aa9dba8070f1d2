# ko_game

The rules behind the client request handlers of a Knight Online style game
server, written in Verus: every function in `src/` carries a contract that
Verus proves, and the laws that tie operations together (a trade window
never overflows, a failed trade gives each offer back, a settled trade keeps
the gold together, a refund is paid once, a removed quest starts over with
no kills, a ranking order is unique, ...) stand there as proof functions.

- `src/packet.rs`: the packet buffer and reader, with the byte layout of
  each write stated as a sequence.
- One module per handler family: trading (`trade`), quests (`quest`),
  rankings (`rank`), respawns (`regene`), pets (`pet`), perks (`perks`),
  cash-shop refunds (`pus_refund`), sealing (`seal`), the Under the Castle
  event (`under_castle`), region visibility (`region`) and the smaller ones.
- Values that change between runs (the clock, random offsets) come from a
  few trusted wrappers around `std` and `rand`, and the calendar from one
  around `chrono`; the contracts say what holds whatever they return.
- `app/`: the few computations done in floating point (distances, HP and MP
  formulas, the speed check), which call into the library for every rule,
  and handlers that run the rules against the game world (trade settlement,
  quest kill counting, potion purchases).
- `tests/`: the test suite, run against the compiled library.

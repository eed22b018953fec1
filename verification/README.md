# lib — verified ZN-board bus and display rules

A Verus library holding the deterministic core of a native ZN-1/ZN-2 arcade
board model: the memory bus with its RAM, scratchpad, banked ROMs, EEPROM,
I/O register window, coin and credit handling, primitive-RAM store tracking
and the unlinked-primitive replay decision; the GP0 packet rules; the
display-frame heuristics that decide whether a presented frame looks like
live gameplay; and the window-frame scaler.

Every function in `src/` carries a `requires`/`ensures` contract that Verus
proves. Properties that relate several operations are stated as public proof
functions named `law_*` (`src/laws.rs`, `src/frame_laws.rs`, and beside the
types they concern).

Layout:

- `src/address.rs`, `src/bus.rs`, `src/board.rs`, `src/snapshot.rs` — address
  decoding, the bus and the board's ROMs, EEPROM and inputs.
- `src/irq.rs`, `src/dma.rs`, `src/linked_list.rs` — the interrupt status
  register (raised at vertical blank, acknowledged by stores), the
  ordering-table DMA channel, and the GPU channel's linked-list walk.
- `src/activity.rs`, `src/buttons.rs`, `src/mapping.rs`, `src/projection.rs`,
  `src/config.rs` — input activity counters and input/credit configuration.
- `src/primitive.rs`, `src/scan.rs`, `src/relation.rs`, `src/replay.rs`,
  `src/replay_step.rs`, `src/gp0.rs` — primitive-RAM store statistics, the
  packet scan, an address's relation to the last linked list and ordering
  tables, the replay decision, the replay attempt's bookkeeping, and GP0
  command rules.
- `src/frame.rs`, `src/display.rs`, `src/window.rs` — frame model, display
  heuristics and the window-frame scaler.
- `src/trace.rs`, `src/trace_run.rs`, `src/stats.rs` — the bus access trace,
  the step-by-step bookkeeping of a traced run, and the bookkeeping kept
  beside the bus.
- `src/emulator.rs`, `src/backend.rs` — the emulator-facing state queries,
  playability from presented frames, trace results, and backend rules
  (including the progress read between two observations).
- `src/json.rs`, `src/text.rs` — verified JSON rendering and option-string
  helpers.
- `app/` — environment-variable configuration and the HUD meter fill, which
  use the process environment and floating point.
- `tests/` — scenario tests run against the compiled library.

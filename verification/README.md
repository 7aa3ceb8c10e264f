# growth_engine

A market-making engine for Hyperliquid perpetuals. The decisions of the engine
live in `src/` and are verified with Verus; `app/` holds the program around
them: the async engine loop, REST and WebSocket I/O, request signing, and the
floating-point pricing and risk arithmetic.

## Verified library (`src/`)

- `state`: the per-coin lifecycle (Idle, ColdStart, Active, Unwind, Shedding,
  Cooldown, Waiting, GateBlocked) and every per-coin counter.
- `engine`: one cycle's state step, the spread gate, side planning, shedding,
  nonces, order tracking and quote retreat.
- `sniper`: toxic-flow evacuation levels and the probe/snipe phase machine.
- `shock`: the rolling fill window behind the market-shock signal.
- `types`: reading order-placement responses; `levels`: the quote grid;
  `labels`: CSV escaping; `proto`, `market`, `signer`: shared records.

## Known gaps

- No operation limits how often a coin's position may flip direction: the
  engine has no flip-rate brake.

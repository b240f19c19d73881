# even_odd

An even/odd dice betting game for the NEAR blockchain. Players register, hold a ticket (an
NFT), and bet "cash" fungible tokens on whether the sum of two dice is even; the owner rolls,
and every winner is paid twice the bet.

- `src/` is the game, verified with Verus. It works on plain values: the runtime's facts
  (`promise::CallContext`, `promise::PromiseResult`) come in as arguments, and the calls it
  wants made come out as `promise::Effect`s. Refused calls return a `util::ContractError`
  and change nothing.
  - `game` — the even/odd game (`game::core_impl`: the contracts it calls; `game::laws`: what
    holds across its calls).
  - `cash_game` — a variant of the game, settled through the cash contract's
    `ft_resolve_transfer` (`cash_game::contracts`: the contracts it calls).
  - `players` — the players' records and the map that holds them.
  - `promise`, `util` — call context, effects, errors, deposit checks.
  - `outside` — the calls into `near_sdk`, `serde_json` and `rand`, with the contracts
    assumed of them.
- `app/` is the NEAR side: it reads the runtime, stores the state, calls the library, and
  turns effects into promises, errors into panics.
- `tests/` runs the library.

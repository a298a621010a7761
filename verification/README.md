# discord_bot

The decision logic of a Discord tip bot for the Spectre network, verified with
Verus. Each slash command of the `wallet` group (`create`, `open`, `close`,
`status`, `debug`, `destroy`, `restore`, `send`) is a state machine: a
`Session` asks for one outside operation at a time (an `Action`), is handed
its outcome (an `Event`), and decides what comes next.

- `src/protocol.rs`: commands, actions, events, phases, sessions.
- `src/flow.rs`: the transition relation of every command, the code that
  meets it, and `CommandRun`, a session that is consistent by its type
  invariant.
- `src/laws.rs`: properties of every step and of every run (consistency,
  progress, the short-secret refusal, the guards on creating, opening,
  restoring, closing, erasing and sending), and, against a model of the
  opened and stored wallets, laws across runs: `close` is idempotent, and
  after a confirmed `destroy` the owner has no wallet, `status` says so and
  `create` creates a new one.
- `src/secret.rs`, `src/text.rs`, `src/settings.rs`: the secret length rule,
  the texts built from booleans, the start-up settings.
- `app/main.rs`: the Discord and wallet side, which performs the actions.

# focust

The scheduling core of Focust, a desktop reminder that plans mini and long
breaks and attention prompts, written in Verus with its behaviour stated in
contracts and proved.

## Layout

- `src/` — the verified library.
  - `time`, `config`, `event`: the time model (UTC timestamps, local readings,
    weekdays, daily ranges), the configuration, and which schedule applies when.
  - `break_scheduler`: break planning and the break scheduler's state machine;
    each decision returns the actions to perform (timers, windows, events).
  - `attention_timer`: when the next attention prompt is due, and its timer.
  - `shared_state`, `manager`: the pause reasons shared by the schedulers and
    the routing of commands between them.
  - `monitors`: idle, do-not-disturb and application-exclusion monitors, each a
    decision on one reading of the system.
  - `models`, `scheduler_state`, `error`, `logging`, `paths`, `text`,
    `test_helpers`: the data types, messages and helpers.
  - `laws`: properties that span several operations, as proof functions.
- `tests/` — tests of the library on concrete values.
- `app/` — the runtime around the library: the asynchronous tasks, readings of
  the system, the desktop shell, serialization and logging.

## Pause reasons

A pause has one of five reasons: user idle, do-not-disturb, manual, application
exclusion, or a timed manual pause. `PauseReasons` holds the first four as flags;
the shared state keeps a timed manual pause beside them, with its deadline. A
timed pause ends by itself when its timer expires; one command clears both user
pauses at once.

# qor_rto

Runtime orchestration: actions with a common execution lifecycle (init, start, update,
finalize, terminate), composed into trees (sequences, concurrent branches, computations,
branches, loops, try/catch, sleeps, events, user routines), run by fibers in fixed cycles of
a program, on an engine that executes tasks on a pool of threads.

## Layout

- `src/` is the library, verified with Verus:
  - `base`, `exception`, `errors`: the execution state machine, exceptions and their filters,
    update results, error codes.
  - `variables`, `expressions`: shared storage and expression trees with checked arithmetic.
  - `event`, `latch`, `waker`: events with notifiers and listeners, and the signals they use.
  - `actions`: the action lifecycle and every kind of action; `actions::rounds` holds the
    decisions of the composite actions on what their children report.
  - `program`: fibers, the program cycle, and programs.
  - `builder`: the steps of a program builder.
  - `queue`, `task`, `executor`: the engine's task queue, task state decisions, engine
    configuration, engine lifecycle, and the steps of its threads.
- `app/` is the runtime around the library: the threaded engine, tasks over futures, wakers,
  the system clock, inter-process events, and running programs and awaited routines on the
  engine.
- `tests/` exercise the library.

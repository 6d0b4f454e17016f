# interceptor

A Windows terminal tool for game-network testing: on a trigger key it holds
the packets of one remote port for a short, randomised window, then releases
them again in paced batches.

- `src/` is the verified library: the settings and their saved form
  (`config`, `saved`, `text`), the held-packet queue and capture-session
  state (`interceptor`), the menu and dashboard decisions and layout
  (`menu`), update checks (`updater`) and argument quoting (`elevation`).
  Each public function carries a contract, and the laws that relate several
  functions are public proof functions.
- `tests/` runs the library on concrete values.
- `app/` is the program around it: administrator relaunch, WinDivert,
  threads, the terminal and the network.

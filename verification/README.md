# benchbot

The decision logic of a transactions-per-second benchmark client, verified
with Verus, and the client program around it.

- `src/` — the verified library: when transfers reverse direction
  (`switching`), how a round's transactions are batched for the sending
  threads (`chunks`), sampling a node's transaction count (`sampling`),
  locating a node from its address text (`location`), waiting for airdrops
  (`airdrop`) and barrier transactions (`barrier`), waiting for the cluster
  (`convergence`), the integer report figures (`report`), the settings and
  their defaults (`settings`), and duration arithmetic (`timing`).
- `app/` — the program: command line, network clients, threads, metrics,
  printing and the floating-point rates.
- `tests/` — tests of the library.

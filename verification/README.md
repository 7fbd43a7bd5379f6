# oxutrm

A remote terminal that survives bad networks, changing IP addresses and NAT on
both ends. A host keeps a shell on a pseudoterminal and an emulator beside it; a
client is sent what is on the screen, never the bytes that drew it.

`src/` is the library, and every item in it is verified with Verus:

- the terminal: `emulator` and `grid` read the emulator's grid, `palette` and
  `screen` say what a cell and a screen are, `blink` recovers an attribute the
  emulator drops, `signals` and `pty` take in its events and its child, and
  `host` puts a screen together from all of them;
- reaching the other end: `ladder` decides which ways to a peer are tried and
  reports on them, `accept` whom to let in, `addr` and `roam` which address is
  which, `link` how a frame travels, `linkstate` what silence means;
- a session: `signal` holds the messages, `attach_exchange` and `connect` one
  attach as each side sees it, `chooser` which session it is for, `serve` and
  `rebuild` what comes before and after it, `loopback` both halves in one
  process, `cli` the command line, `caps` what a terminal can do;
- `text` and `error` are what the others are written with.

Sockets, processes, awaits and sleeps are not in the library. Where a decision
alternates with them, the library has a state and a `step` that takes what
happened and says what to do next; `app/` does it and comes back. `app/` also
holds what only other crates of the family can do: the wire format, the
certificates, the candidate gathering, the session registry, the frame
synchroniser, the renderer and the session loops.

`tests/` runs the library, with a real emulator where one is needed.

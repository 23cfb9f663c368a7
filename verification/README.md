# oss_node

The logic of an OSS audio node for a PipeWire-style graph: a playback or capture
device behind one port. `src/` is a Verus library; every function in it is verified
against its contract, and nothing in it is trusted.

- `sink` and `source` hold the buffer geometry, the phases of a cycle, and the cycle
  itself as a state machine: it names one device operation at a time and takes the
  result.
- `rebuild` and `control` replace a device in the background or on command. The
  completion mailbox, the command slot and the handoffs are state machines too.
- `format`, `channels`, `backend` and `ports` negotiate formats.
- `params`, `events` and `init` keep the tunables and what the host is told.
- `timing` and `process` surround a cycle.

Laws that span several functions are public proof functions next to the definitions
that they speak of.

`app/` embeds the library: the data loop of either direction, the control entry points,
the worker thread, the timer, the floating-point servo, and the wire form of parameters.

# matc_ui

The core of a desktop controller for Matter smart-home devices, written in
Verus: every function under `src/` carries a contract that Verus proves.

- `src/` is the verified library: the bounded log buffer and its verbosity
  (`logging`), the per-device status table and data cache (`state`), the
  session-recovery policy (`retry`) and the probe of a device (`probe`) as
  state machines, the decoding of the values devices report (`tlv`,
  `attributes`, `invoke`), the encoding of attribute writes (`write`) and of
  commissioning-window commands (`commission`), the cluster catalogue labels
  (`clusters`), and the text helpers they share (`text`).
- Calls into the Matter library and into std that Verus does not read are
  small wrappers marked `#[verifier::external_body]`, each with a doc comment
  saying what its contract claims.
- `tests/` runs the library on concrete values.
- `app/` is the desktop shell: window commands, network and Bluetooth I/O,
  the async loops that drive the library's state machines, and the
  serialisable copies of the library's types.

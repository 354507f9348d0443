# bluer (verified core)

The decision-making part of a Bluetooth library for the Linux BlueZ stack,
written in Verus: every function in `src/` carries a contract that Verus
proves, and the properties that span several functions are stated as proof
functions (`lemma_*`).

Layout:

- `src/lib.rs` — Bluetooth addresses (text form, system byte order), address
  types, error kinds and their texts, the error of a D-Bus error reply,
  modalias parsing.
- `src/adapter.rs`, `src/device.rs`, `src/gatt/remote.rs` — D-Bus object
  paths of adapters, devices, services, characteristics and descriptors,
  built and parsed back; device events and the discovery filter.
- `src/session.rs` — routing of daemon signals to subscriptions, object
  parents, the single shared session.
- `src/object_path.rs` — the object paths under which advertisements,
  monitors and profiles are published, with the proof that they are valid
  D-Bus object paths.
- `src/dict.rs` — option dictionaries as plain values and their typed
  readers.
- `src/gatt/local.rs`, `src/agent.rs`, `src/rfcomm/profile.rs`,
  `src/monitor/`, `src/adv.rs` — requests of the daemon to local GATT
  applications, agents, profiles, monitors and advertisements, how they
  are answered, and the properties published for them.
- `src/keyed.rs` — the ordered sets and maps of advertisements, walked in
  ascending order into the lists that are published.
- `src/l2cap.rs`, `src/rfcomm/mod.rs`, `src/sock.rs`, `src/sys.rs` — socket
  addresses, security levels and link modes, and their system forms.
- `src/mesh/` — the mesh application, its elements, provisioner and agent.
- `src/tools/` — the decisions of the command line tools (`l2cat`, `rfcat`,
  `blumon`, `bluadv`), among them the copy loop as a state machine.
- `src/foreign.rs` — the calls into `hex`, `uuid`, `zbus` and std, with the
  contracts that the verified code relies on.
- `app/lib.rs` — conversion of option dictionaries to and from zbus values.
- `app/events.rs` — the daemon's signals handed to subscribers over
  channels, with the library choosing the receivers.
- `app/io_loop.rs` — the tools' copy loop, run over blocking reads, with
  the library's state machine deciding each step.
- `tests/` — tests of the library on concrete values.

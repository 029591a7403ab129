# ipc_tracking

A data collector for industrial Modbus devices (Coriolis flowmeters, RPM
counters, AIO modules) and a GPS receiver, which keeps its configuration up to
date from several command sources and reports to a telemetry endpoint.

The library in `src/` is verified with Verus: every public function states in
its contract what it returns or changes, and the properties that span several
calls are proof functions (`lemma_*`).

- `modbus/`: CRC-16/MODBUS, RTU request framing and response checks.
- `devices/`: decoding of device registers, the RPM spike filter, the GPS
  `+QGPSLOC` answer and the decisions of the GPS reading loop.
- `config/`: settings, command-line arguments, metadata and the dynamic
  configuration manager (set, add, remove, enable, disable, reset, backup and
  restore commands).
- `services/`: the device registry and reading plan of the data service, the
  telemetry report in its JSON and binary forms, the HTTP interface's
  decisions.
- `output/`, `storage/`: formatters, senders, raw payload forms, database
  statements and settings.
- `utils/`: the start-up and operation state machine and its handlers.
- `cli/`: what the command line's subcommands decide and show.

`app/` holds what touches the outside world: the serial bus, the GPS port,
files, SQLite, HTTP, the command-line parser and the main loops. It calls the
library for every decision. `tests/` exercises the library on concrete values.

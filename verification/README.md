# wazuh-agent-status-client

The tray client of the Wazuh agent status service, with its logic verified by Verus.

- `src/` is the verified library: the line protocol spoken with the backend
  (`backend_client`), the version report and the version state (`version_checker`,
  with the regular expressions in `patterns`), the tray menu as data (`tray`), the log
  location (`logging`), the command line (`cli`), the text primitives they share
  (`text`) and the properties that hold across operations (`laws`).
- `app/` is the program around it: sockets, the tokio tasks, logging setup and the
  tauri tray, which show and feed the library's state.
- `tests/` exercises the library on concrete values.

# fido

The logic of Fido, a keyboard-driven terminal client for a small social
network (threads, votes, direct messages, community chat), written in Verus
with its behaviour stated in contracts and proved.

- `src/` is the verified library: key routing and the interface state
  that keys change (`route`, `ui`, `dispatch`, `keys`),
  the state of each tab and overlay (`feed`, `detail`, `thread_view`,
  `dms`, `conversations`, `chat`, `social`, `communities`, `community`,
  `live`, `auth`, `state`), the realtime connection policy (`realtime`,
  `lifecycle`), and the text formats the client reads and writes (`session`,
  `config`, `api`, `repo`, `update`, `emoji`, `numfmt`, `wrap`, `text`).
- `tests/` runs the library on concrete values.
- `app/` is the command-line entry point: argument and environment handling,
  files under `~/.fido`, `git` and HTTP calls, which hand plain values to the
  library, and the terminal loop that feeds keys to `ui::UiState::step`.

# rustrdp

The core of an RDP client, in Verus, and a program around it.

`src/` is a library on plain values. Every function states in its contract what it returns or
changes, and Verus proves it:

- `config`: servers, shared credentials, `cmd:` passwords and the place of the configuration file
- `desktop`: resolutions and the sizes that the display protocol allows
- `input`, `input_state`, `input_mirror`: from events of the window to events for the server
- `clipboard`: text between the two clipboards
- `connection`: what the client announces, the stages of connecting and the key of the server
- `picture`: the picture of the remote desktop
- `session`, `worker`, `worker_runs`: the messages of a session, its worker as a state machine, and
  what holds of every run of it
- `window`: the state behind the window
- `text`: numbers and white space

Calls into other crates stand behind functions marked `#[verifier::external_body]`; each says in its
doc comment what is taken for granted.

`app/` is the program: the window, the sockets, TLS, the threads, the clipboard of the host and the
configuration file `~/.config/rustrdp/servers.json`. It performs the actions of the worker and hands
back the events. The window needs `eframe`, which is not among the dependencies in `Cargo.toml`.

`tests/` runs the library.

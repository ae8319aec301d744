# debug_session

The decisions of a debug adapter session, written and proved in Verus.

A debug adapter stands between a client that speaks the debug adapter protocol and a debugger.
`src/` holds what it decides: which requests it serves and which it refuses, how requests are
cancelled, what it asks the debugger for, what it makes of the answers, and what it tells the client.
Contracts state what each function returns. Where that rests on something outside, the contract says
so: the message about a size that cannot be read, for one, is fixed only where `usize` has 64 bits.
Laws that span several functions are proof functions whose names start with `law_`.

- `request`, `cancel`: requests, their answers and their cancellation
- `session`: the state of a session, its settings and capabilities
- `console`, `completions`: what appears in the console and what is typed into it
- `events`, `modules`: what the debugger reports
- `stack`, `control`, `goto_requests`: threads, frames, stepping, and moving the point of execution
- `data_breakpoints`, `memory`, `symbols`, `source_map`: data, memory, symbols and source files
- `text`, `error`, `protocol`: text, errors and messages
- `outside`: what is taken from the standard library and from other crates, and relied on

`app/` runs a session: the event loop, the calls of the debugger and the file system. `tests/` runs
the library on concrete values.

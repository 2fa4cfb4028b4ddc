# wasefire_tools

The decisions behind the command line tools for Wasefire platforms and applets, and behind the
platform functions that applets call, as a verified library.

- `src/` is the library. It decides which candidates to open and which platform to use
  (`connect`), what to read, send, receive and write during a call (`rpc`), which commands create,
  build, test and optimize an applet (`applet`, `command`, `opt_level`) and what follows when one of
  them fails (`steps`), how serials are shown and read (`hex`, `text`), and when the platform is
  asked for its version (`platform`). It does no
  input or output: where an action alternates with a device, a function takes the outcome of the
  last exchange and returns the next step.
- `app/` performs the steps: it runs commands, reads and writes files, and talks to a platform
  through the traits in `app/protocol.rs`, which a driver of the platform protocol implements.
- `tests/` runs the library on concrete values.

# warpgate-protocol-remoterun

Reaches a remote-run target and carries the channel that comes out of it.

- `src/` is the verified library. It decides and computes, and performs no input or output.
  - `options`, `error`: the settings of a target, and what can go wrong.
  - `runner`: the decisions for a target, in each of its modes.
  - `provision`, `json`: the answer of a provisioning service.
  - `kubectl`, `text`: the commands that find a pod and attach to it.
  - `laws`: what holds across these.
  - `session`, with `message` and `laws`: the loop of a session channel.
- `app/` performs what the library decides, with `reqwest`, `tokio` and `russh`.
- `tests/` runs the library on concrete values.

What the proofs rest on besides Verus stands in `json` and `text`: contracts of four functions
of `serde_json` and of `String::from_utf8_lossy`.

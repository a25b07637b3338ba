# dev_cli

The logic behind `dev`, a command that brings development containers up, runs
commands in them and tidies up after them.

`src/` is a library that Verus verifies. Nothing in it reads a file, opens a
socket or waits. Where a command alternates between doing something and deciding
what to do next, the library holds the deciding: a function from what has
happened so far to the next action (`up::flow`, `up::compose`, `up::features`,
`up::gate`, `exec`, `shell`, `image_build`, `prune`, `status_runtime::live`). What
holds of every such run, whatever comes of the actions, is stated in public proof
functions beside them.

`app/` is ordinary Rust that performs the actions: containers, providers of
secrets, the terminal, the relay's socket. It reaches the container runtime and
the project's configuration through the traits in `app/services.rs`.

`tests/` runs the library on concrete values. `tests/scenarios.rs` plays whole
runs of `dev up` against a runtime and a clock that exist only in the test.

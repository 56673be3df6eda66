# cua_driver_sdk

The verified core of the Cua Driver C ABI and of its macOS Monterey platform
shim, written in Verus.

- `src/` is the library. Each exported entry point's decisions (which
  argument is refused, with which status and message; how a body's outcome
  becomes a status and an error buffer; what an operation's completion
  carries; how explicit authorization options must agree with the trusted
  environment) are functions with contracts, proved by Verus.
  - `status`: status codes and the failure value.
  - `text`, `buffer`: UTF-8 decoding, message building, caller-owned buffers.
  - `handles`: driver and session handles and their release.
  - `input`: caller byte ranges, required handles, tool invocations.
  - `operation`: the boundary guard and operation completion.
  - `envflag`, `authorization`: switches read from the environment and the
    checks on explicit runtime authorization.
  - `abi`: version record and the create / session-create decisions.
  - `platform`, `capture`: tool registration, the screen-capture probe,
    `screencapture` command lines and the Base64 payload.
- `app/` holds the exported `extern "C"` functions, which own raw pointers,
  catch panics, read the environment and file system, run the async executor
  and call the driver core; it hands every decision to the library.
- `tests/` exercises the library on concrete values.

# visionkit

Bindings for Apple's VisionKit on macOS, split in two crates.

- `src/` is the library `visionkit`, written in Verus and verified: the
  analysis and interaction flag sets, image orientations, the analyzer
  configuration, text ranges and their validation, menu tags, attributed
  text and menu values, the availability metadata of the iOS-only areas, the
  order in which recognition languages are listed, the rules that turn
  the Swift bridge's status codes, messages, buffers and JSON payloads into
  results (an analysis timeout that names the main thread becomes
  `MainRunLoopNotRunning`), and the waiting discipline of the blocking
  executor (poll once woken; pump the main run loop on the main thread,
  park elsewhere).
- `app/` holds what the verifier does not see: the C entry points of the
  Swift bridge, the handles it hands out (analyzer, analysis, overlay,
  delegate, subjects), floating-point geometry, serde copies of the
  library's data types, and the futures of the asynchronous calls and the
  executor loop that acts on the library's waiting decisions.
- `tests/` exercises the library.

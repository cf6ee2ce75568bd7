# dimas

Behavior trees for DiMAS agents, with their logic verified by Verus.

- `src/` is the verified library: the control and decorator nodes as state
  machines (`control/`, `decorator/`, with their laws in `run*.rs`), the
  behaviors of the examples (`leaves.rs`, `cross_door.rs`), blackboards, the
  factory and its registry (`factory.rs`, `builtin.rs`, `registry.rs`), the
  XML reader that builds trees (`xml.rs`, `xml_parser.rs`, `text.rs`), the
  errors, and the component registers (`utils/`).
- `app/` holds what runs around it: the driver that ticks trees, timers, the
  agent loop, library loading, the command line, and the error types with
  their `std::error::Error` impls.
- `tests/` runs the library on concrete trees and nodes.

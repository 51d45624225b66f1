# surfman_angle

OpenGL contexts on top of ANGLE's EGL implementation over Direct3D 11: choosing
configurations, creating contexts or taking over the current one, making them
current, changing their surfaces, destroying them.

* `src/` is the library, verified with Verus. It makes no call into EGL or GL.
  Every operation is a state machine (`operation.rs`): it asks for a call, takes the
  reply, and asks for the next call or gives its result. `runs.rs` states what whole
  runs do, for all replies; `laws.rs` states what holds of the operations together.
* `app/` makes the calls: bindings to EGL, the loop that runs an operation, and
  `Device` and `Context` around those of the library.
* `tests/` runs the operations with replies that are written down.

A reply that an operation cannot take is found by `Operation::check` before it is
handed over. `app/` panics on it.

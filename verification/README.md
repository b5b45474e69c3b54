# mantle

A client library for the Mantle graphics interface, verified with Verus.

The driver is an outside service that only a program can call (its entry
points are C functions of a Windows library). The library therefore splits
every operation into steps:

* each step names the call to make and its arguments as plain values
  (`create_info`, `queue_request`, `commands`, ...);
* the program makes the call; once the driver reported success, it hands
  the answer to the step's `resume` (or `record`, `waited`, `ended`,
  `destroyed`, `freed`), which gives the next step or the finished object.
  A failed call stops the program.

Layout:

* `src/ffi.rs` — handle types, the numeric codes of `GR_RESULT`,
  `GR_QUEUE_TYPE` and `GR_VALIDATION_LEVEL`, and the descriptions passed to
  the driver.
* `src/error.rs` — `MantleError` and `check_result`.
* `src/instance.rs` — initialization and the list of GPUs.
* `src/device.rs` — device creation, memory heaps, submission and fences.
* `src/command_buffer.rs` — command buffers and the commands recorded in them.
* `src/presentable_image.rs` — presentable images and their presentation.
* `src/buffer.rs`, `src/shader.rs` — memory buffers and shaders.
* `app/` — the demo program: the driver's C declarations, the calls that
  run the library's steps, and the window (Windows only).

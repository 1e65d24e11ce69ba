# gamma-rt-engine

The core of a hardware ray-tracing engine, verified with Verus. An editor
connects over a WebSocket, sends scenes and partial updates, and gets back raw
RGBA8 frames.

- `src/` is the library. It selects the backend, runs the conversation with one
  editor as a state machine (`ipc`), and decides what a scene uploads to the GPU
  and how a frame comes about (`render`). Floats are carried as bit patterns.
- `app/` is the program around it: the command line, the WebSocket server, the
  JSON shapes, floating-point arithmetic, and the Metal device.
- `tests/` run the library on concrete values.

`ipc::laws` states what holds of every conversation. Each other module states
its laws next to what they are about.

# device_hub

A hub for simple devices (controllers, lights, sensors, monitors) that speak
a small binary protocol over TCP, and an end-to-end checker for it.

- `src/` is the verified library: the wire constants and codes
  (`protocol`), the handshake state machine (`connection`), the per-device
  byte decoders, the controller's reaction and the monitor's response
  framing (`handlers`), the hub's state and its actor step (`hub_actor`),
  the device side used by the checker (`checker`), the error types
  (`error`), and the properties that tie them together (`laws`).
- `app/` is the program around it: TCP, tokio tasks and channels, logging,
  and JSON. `device_hub` serves on 127.0.0.1:8089; `device_hub checker`
  runs the eight checker phases against a running hub.
- `tests/` exercises the library, including the eight phases played
  through the library without a network.

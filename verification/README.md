# paso_websocket

Firmware logic of a lamp on an ESP32-C3. The lamp breathes; over a WebSocket
(`wss://ws.postman-echo.com/raw`) it greets its backend and takes commands such as

```json
{"type": "SetBrightness", "percent": 90}
```

A command sets the LED at once and holds it for 3 s; then breathing resumes at the
step that was next.

- `src/` is the verified library. Each module states what it does in `requires` and
  `ensures`, and Verus proves it. Two calls are trusted: `std::str::from_utf8`, and
  `serde_json::to_string` on a string.
  - `boot`: from power-on to the breathing loop, and what a failure leads to.
  - `session`, `session_laws`: the life of a connection, as steps and their outcomes,
    and what holds of every run of it.
  - `ws_client`: the queue of outgoing messages.
  - `frame`, `message`, `json`: frames, messages and their text on the wire.
  - `decimal`: numbers in the texts of errors.
  - `light`: the breathing cycle and the hold of a command.
- `tests/` run the library.
- `app/` is the firmware around it: it performs the steps on the board.

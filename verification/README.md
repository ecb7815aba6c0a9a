# sremote

Remote assistance: a session broker and a screen-capture daemon for Windows hosts.

```
[browser]  <-- WebSocket -->  [broker]  <-- WebSocket -->  [daemon]
    |                                                          |
    +------------- WebRTC: video and control commands ---------+
```

The rules of both programs are a library, verified with Verus: who is let into a room, what is
relayed, what an RDP host and a browser are sent, when a picture is captured, encoded and sent,
and how the bytes of each message are laid out. Sockets, devices, clocks and floating point stay
outside of it, in `app/`, which performs what the library decides and reports what came of it.

## Layout

| Path            | Content                                                                   |
|-----------------|---------------------------------------------------------------------------|
| `src/broker/`   | admission, rooms, relay, ICE servers, the RDP bridge, input and frames     |
| `src/daemon/`   | capture, sizes, pixels, H.264 streams, the encoder, signalling, control    |
| `src/*.rs`      | texts, JSON, tokens, bytes and time                                        |
| `tests/`        | the library on concrete values, with the outside crates linked            |
| `app/`          | the programs: `sremote broker` and `sremote daemon`                        |

Every function states what it returns or changes. What the library as a whole promises is stated
by public proof functions beside the functions they are about. The functions that call into other
crates are marked `external_body`; each says what is believed of the call.

## Running

The settings are read from the environment, or from a `.env` file:

| Variable                            | Used by | Default                |
|-------------------------------------|---------|------------------------|
| `JWT_SECRET`                        | both    | must be set            |
| `BROKER_ADDR`                       | broker  | `127.0.0.1:5695`       |
| `TURN_URL`, `TURN_SECRET`           | broker  | no TURN server         |
| `TURN_USER`                         | broker  | `sremote`              |
| `BROKER_WS_URL`                     | daemon  | `ws://127.0.0.1:5695`  |
| `AGENT_ROOM`                        | daemon  | `room-001`             |
| `AGENT_SUBJECT`                     | daemon  | `daemon-01`            |
| `CAPTURE_FPS`                       | daemon  | `30`                   |
| `INITIAL_BITRATE_KBPS`              | daemon  | `3000`                 |
| `CAPTURE_WIDTH`, `CAPTURE_HEIGHT`   | daemon  | the size of the screen |

`--fps`, `--width` and `--height` on the daemon's command line come before the environment, and
`--service` runs it as a Windows service.

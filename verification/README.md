# haven

A control server for the AdGuard VPN command-line client on a Raspberry Pi:
a browser page shows the VPN state, lists the locations sorted by ping,
connects and disconnects, reconnects Wi-Fi, restarts the machine, and streams
the server's log, over HTTP and a WebSocket.

The logic is a library verified with Verus; the program around it does the
I/O.

- `src/` — the verified library
  - `text.rs`: characters, searching, trimming, lines and words, decimals
  - `config/`: the command line (`-a`, `-p`, `-l`, `-A`, `-R`, `-h`, `-V`)
  - `logger/`: levels, the filter, console lines, the bounded line history
  - `requests/`, `responses/`: HTTP requests and responses
  - `server/`: routing, `/health`, `/api/config`, the WebSocket handshake and
    the session's decisions
  - `vpn/`: the VPN client's commands, the parsing of what it prints, the
    location cache, system figures
  - `autostart/`: the XDG autostart scripts and entries
  - `vpn_core.rs`, `utils/`, `new_src/`, `request_parser.rs`,
    `build_resources.rs`: the status tracker, address and port readers,
    identifiers, command templates, and the generated resource constants
- `app/` — the program: sockets, threads, processes, files, the clock, JSON
- `tests/` — tests of the library

Run `./haven -a 0.0.0.0 -p 9000` from the directory that holds `resources/`,
then open `http://<host>:9000`.

# datum_connect

The logic of a tunnel agent, verified with Verus: it serves a local service
under a public hostname, and attaches a device to a VPC.

- `src/` is the library. Verus proves the contract of every function
  but the trusted ones (see below).
  - `tunnels/` lists, creates, updates, switches and deletes tunnels. Each
    operation is a state machine: it asks for one request at a time and goes on
    with the reply. `plane.rs`, `delete_laws.rs` and `change_laws.rs` prove what
    whole runs do to a control plane.
  - `cli/` decides what the commands do and what they write.
  - `datum_cloud/` holds tokens: the credentials helper, their expiry, and when
    they are refreshed. `project_control_plane.rs` follows them.
  - `vpc/` holds the frames on the wire, who may connect, the routes of the local
    interface, and the router of the lab.
  - `repo.rs` and `state.rs` are what is kept on the device.
  - `fake_apiserver/` is an API server in memory, for tests.
  - `json.rs`, `text.rs` and `numbers.rs` are what the rest is written with.
- `tests/` runs the library.
- `app/` is the program around it: arguments, files, processes, the network.

What the library has from other crates (URLs, base64, JSON, endpoint IDs, what an
error of the API server says) it calls through functions whose contracts are
trusted; the comment above each says what is claimed.

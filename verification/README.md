# twinvpn-core

The composition root of a mesh VPN client, written so that what it decides is proved.

`src/` is the library. It holds no socket, no clock and no thread: a function takes what
the platform, a store, a session's machine or a peer answered, and says what is to be done
next. Every function states what it returns or changes, and the public proof functions
beside them state what holds across functions.

| Module | What it decides |
|---|---|
| `instance`, `vault`, `upkeep` | what an instance lets in, tells, keeps and resumes, and how it ends |
| `dispatch`, `execute` | which operations are performed, and what each one does |
| `establish`, `execute::handshake`, `execute::establishment` | from an interface table to a tunnel that carries |
| `datapath`, `execute::carriage` | what happens to one packet, directly or through a relay |
| `enforce` | the order in which protection is installed and taken down |
| `planes`, `bridge`, `journal`, `cp_binding` | what crosses from the control plane, and what is made durable |
| `restart` | that a vault which was written to brings sessions and control-plane facts back |
| `pairing` | how a pairing begins, is cancelled and is reported |
| `gateway`, `events`, `build_identity`, `lite` | the gateway role, the event stream, the build's identity and its profiles |
| `types`, `session`, `session_table`, `reason`, `octets`, `table` | the vocabulary |

`app/` is a host around it: the loops that perform an action and hand back the event.
`tests/` runs the library.

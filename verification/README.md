# jcp_protocol

The JMCP control plane's protocol and decision logic, verified with Verus.

JMCP accepts signed work-order envelopes, routes them to adapters (Jeryu,
Jekko, Jankurai, Jailgun, ZYAL), turns what the adapters report into
evidence, and asks approvers on Telegram (typed or spoken) before anything
risky runs. This crate holds the parts of that which decide something, each
with a contract that Verus proves:

- `envelope`, `subject`, `crypto`, `clock`: envelopes, subjects, payload
  hashes, Ed25519 signing and checking, local key files.
- `json`, `text`: the JSON values and text operations the rest reads with.
- `domain`, `evidence`: work orders, leases, service cards, evidence.
- `jekko`, `zyal`, `jankurai`, `forge`, `jailgun`, `jailgun_request`,
  `jailgun_ingest`, `worker_json`: the adapters' routing, requests, the
  steps that run a work order, and the evidence their results map to.
- `ecosystem`, `universe`: Jeryu's ecosystem snapshot and the universe view
  composed from it.
- `telegram`, `voice`: the bot's commands, replies and voice approvals.
- `jitux`: the Mission Deck's ignition frames and its session hub.
- `ops`: the operator's doctors, ports, offsets and structured events.

Calls into `hex`, `sha2`, `ed25519-dalek`, `chrono`, `uuid` and `reqwest`'s
URL parser stand behind small trusted wrappers whose contracts name what the
outside code returns.

`app/` is the `jmcpctl` command line around the library: argument handling,
HTTP calls to the control plane, the key file on disk, and the wire (serde)
forms of envelopes. `tests/` exercises the library from outside.

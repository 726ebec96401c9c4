# rbx_studio_server

The core of a server between MCP clients and a plugin in Roblox Studio, verified with Verus.

A client calls a tool; the server queues the call as a command with an id, the plugin fetches the
command by a long poll, runs it, and reports back under that id; the server hands the report to
the client that waits for it. A second server on the same machine, which finds the port of the
plugin taken, passes its commands on to the first.

- `src/` is the library. `state` holds the queue and the waiting callers, `tool_run`, `handlers`
  and `dud_proxy` hold what each party does to them, `screenshot`, `scaling`, `imaging` and
  `base64_text` make a picture of the Studio window, `mcp`, `tools` and `about` hold what is said
  to the client, and `laws` states what holds of the server as a whole.
- `tests/` runs the library.
- `app/` is the server around it: HTTP, MCP, the clock, and the window system.

What the library takes on trust of other crates stands in `channels` (tokio), `ids` (uuid), `mcp`
and `about` (rmcp), `imaging` (image) and `base64_text` (base64), each call behind a function whose
comment says what is claimed of it.

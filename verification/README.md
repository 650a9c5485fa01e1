# agentic

A terminal coding agent and its server: the chat client, the tool editor and
dashboard, the workspace tools (read, write, edit, search, sandboxed scripts),
and the decisions of the JSON-RPC and streaming server that records sessions
and tools.

- `src/` is the library, verified with Verus: workspace path guard, file and
  edit tools, search, text fields and wrapping, the chat stream protocol and
  message model, the client's state machine (keys, routes, stream events, tool
  editor, dashboard), the views it draws as lines of styled text, the server's
  request planning, tool registry, sanitising of stored turns and the storage
  mappings. Each public function states what it returns in its contract, and
  the laws that span functions stand as public proof functions named `law_*`.
- `app/` is the program around it: terminal I/O, the HTTP client, processes,
  files and the event loop, which hand plain values to the library. Its
  server answers health checks only: the session database and the model
  agent that the other routes need are not linked.
- `tests/` exercises the library on concrete values.

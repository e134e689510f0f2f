# mcp_server_states

The states of a server that offers GraphQL operations as tools over the Model Context Protocol.

* `src/` is the verified library. `machine` takes a server from state to state, one event at a time;
  `states` holds the states, the configuration and how a server is set up; `running` is a server
  that serves clients, with its lists of tools (`tools`) and resources (`resources`) and the calls
  of its tools (`tool_call`); `schema` reads the texts of schemas, with `rendering` and `words` for
  those that need care; `laws` states what holds of the life of a server as a whole.
* `app/` is the server around it: the event loop, the protocol handler, and the host, which brings
  the tools themselves.
* `tests/` runs the library together with the crates it calls.
